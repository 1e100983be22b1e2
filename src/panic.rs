//! The report printed when the program panics.
//!
//! The report is built from plain values (the panic message, its location and
//! the thread) as a sequence of painted segments, in the tones of log lines.
use crate::log::{decimal, decimal_text, same_text, segments_view, Segment, Tone};
use vstd::prelude::*;

verus! {

/// `s` with every leading copy of `p` removed, as many as there are.
pub open spec fn trim_start(s: Seq<char>, p: Seq<char>) -> Seq<char>
    decreases s.len(),
{
    if p.len() > 0 && p.len() <= s.len() && s.take(p.len() as int) == p {
        trim_start(s.skip(p.len() as int), p)
    } else {
        s
    }
}

/// `s` with every trailing copy of `p` removed, as many as there are.
pub open spec fn trim_end(s: Seq<char>, p: Seq<char>) -> Seq<char>
    decreases s.len(),
{
    if p.len() > 0 && p.len() <= s.len() && s.skip(s.len() - p.len()) == p {
        trim_end(s.take(s.len() - p.len()), p)
    } else {
        s
    }
}

/// The number in the debug rendering `ThreadId(<n>)` of a thread's id.
pub open spec fn thread_number(id_debug: Seq<char>) -> Seq<char> {
    trim_end(trim_start(id_debug, "ThreadId("@), ")"@)
}

/// Where a panic happened.
pub struct PanicLocation {
    pub file: String,
    pub line: u32,
    pub column: u32,
}

/// The segments of the report for a panic with message `payload` (if it has
/// a text one), at `location` (if known), in the thread named `thread` (if
/// named) whose id renders as `id_debug`.
pub open spec fn report_segments(
    payload: Option<Seq<char>>,
    location: Option<(Seq<char>, u32, u32)>,
    thread: Option<Seq<char>>,
    id_debug: Seq<char>,
) -> Seq<(Seq<char>, Tone)> {
    let head = seq![
        ("Unexpected error occured! The application panicked (crashed)."@, Tone::Alert),
        ("\n"@, Tone::Plain),
        ("Message:   "@, Tone::Plain),
        (match payload {
            Some(m) => m,
            None => "<???>"@,
        }, Tone::Payload),
        ("\n"@, Tone::Plain),
    ];
    let place = match location {
        Some((file, line, column)) => seq![
            ("Location: {\n   file:   "@, Tone::Plain),
            (file, Tone::Place),
            ("\n   line:   "@, Tone::Plain),
            (decimal(line as nat), Tone::Place),
            ("\n   column: "@, Tone::Plain),
            (decimal(column as nat), Tone::Place),
            ("\n}\n"@, Tone::Plain),
        ],
        None => seq![
            ("Location: "@, Tone::Plain),
            ("src/{unknown}.rs"@, Tone::Place),
            (":"@, Tone::Plain),
            ("??"@, Tone::Place),
            (":"@, Tone::Plain),
            ("??"@, Tone::Place),
            ("\n"@, Tone::Plain),
        ],
    };
    let tail = seq![
        ("Thread:    "@, Tone::Plain),
        (match thread {
            Some(t) => t,
            None => "{unknown}"@,
        }, Tone::Thread),
        (" (id: "@, Tone::Plain),
        (thread_number(id_debug), Tone::Thread),
        (")\n"@, Tone::Plain),
    ];
    head + place + tail
}

/// Whether `p` occurs in `s` at character `a`.
fn occurs_at(s: &str, a: usize, p: &str) -> (r: bool)
    requires
        a <= s@.len(),
    ensures
        r == (p@.len() <= s@.len() - a && s@.subrange(a as int, a + p@.len()) == p@),
{
    let n = s.unicode_len();
    let m = p.unicode_len();
    if m > n - a {
        false
    } else {
        same_text(s.substring_char(a, a + m), p)
    }
}

/// `s` with every leading copy of `p` removed.
pub fn trim_start_all<'a>(s: &'a str, p: &str) -> (r: &'a str)
    ensures
        r@ == trim_start(s@, p@),
{
    let n = s.unicode_len();
    let m = p.unicode_len();
    let mut a: usize = 0;
    if m == 0 {
        return s;
    }
    proof {
        assert(s@.skip(0) =~= s@);
    }
    loop
        invariant
            n == s@.len(),
            m == p@.len(),
            m > 0,
            a <= n,
            trim_start(s@, p@) == trim_start(s@.skip(a as int), p@),
        ensures
            a <= n,
            trim_start(s@, p@) == trim_start(s@.skip(a as int), p@),
            !(m <= n - a && s@.subrange(a as int, a + m) == p@),
        decreases n - a,
    {
        if !occurs_at(s, a, p) {
            break;
        }
        proof {
            let rest = s@.skip(a as int);
            assert(rest.take(m as int) =~= s@.subrange(a as int, a + m));
            assert(rest.skip(m as int) =~= s@.skip(a + m));
        }
        a = a + m;
    }
    proof {
        let rest = s@.skip(a as int);
        if m <= rest.len() {
            assert(rest.take(m as int) =~= s@.subrange(a as int, a + m));
        }
        assert(s@.subrange(a as int, n as int) =~= rest);
        assert(trim_start(rest, p@) == rest);
    }
    s.substring_char(a, n)
}

/// `s` with every trailing copy of `p` removed.
pub fn trim_end_all<'a>(s: &'a str, p: &str) -> (r: &'a str)
    ensures
        r@ == trim_end(s@, p@),
{
    let n = s.unicode_len();
    let m = p.unicode_len();
    let mut b: usize = n;
    if m == 0 {
        return s;
    }
    proof {
        assert(s@.take(n as int) =~= s@);
    }
    loop
        invariant
            n == s@.len(),
            m == p@.len(),
            m > 0,
            b <= n,
            trim_end(s@, p@) == trim_end(s@.take(b as int), p@),
        ensures
            b <= n,
            trim_end(s@, p@) == trim_end(s@.take(b as int), p@),
            m > b || s@.subrange(b - m, b as int) != p@,
        decreases b,
    {
        if m > b || !occurs_at(s, b - m, p) {
            break;
        }
        proof {
            let rest = s@.take(b as int);
            assert(rest.skip(rest.len() - m) =~= s@.subrange(b - m, b as int));
            assert(rest.take(rest.len() - m) =~= s@.take(b - m));
        }
        b = b - m;
    }
    proof {
        let rest = s@.take(b as int);
        if m <= b {
            assert(rest.skip(rest.len() - m) =~= s@.subrange(b - m, b as int));
        }
        assert(s@.subrange(0, b as int) =~= rest);
        assert(trim_end(rest, p@) == rest);
    }
    s.substring_char(0, b)
}

/// The number that the debug rendering of a thread id holds.
pub fn thread_number_text<'a>(id_debug: &'a str) -> (r: &'a str)
    ensures
        r@ == thread_number(id_debug@),
{
    trim_end_all(trim_start_all(id_debug, "ThreadId("), ")")
}

fn piece(text: String, tone: Tone) -> (r: Segment)
    ensures
        r.text@ == text@,
        r.tone == tone,
{
    Segment { text, tone }
}

/// The report for a panic.
pub struct Panic;

impl Panic {
    /// The segments of the report for a panic with message `payload` (if it
    /// has a text one), at `location` (if known), in the thread named
    /// `thread` (if named) whose id renders as `id_debug`.
    pub fn display(
        payload: Option<&str>,
        location: Option<&PanicLocation>,
        thread: Option<&str>,
        id_debug: &str,
    ) -> (r: Vec<Segment>)
        ensures
            segments_view(r@) == report_segments(
                match payload {
                    Some(m) => Some(m@),
                    None => None,
                },
                match location {
                    Some(l) => Some((l.file@, l.line, l.column)),
                    None => None,
                },
                match thread {
                    Some(t) => Some(t@),
                    None => None,
                },
                id_debug@,
            ),
    {
        let mut r: Vec<Segment> = Vec::new();
        r.push(
            piece(
                String::from_str("Unexpected error occured! The application panicked (crashed)."),
                Tone::Alert,
            ),
        );
        r.push(piece(String::from_str("\n"), Tone::Plain));
        r.push(piece(String::from_str("Message:   "), Tone::Plain));
        let message = match payload {
            Some(m) => String::from_str(m),
            None => String::from_str("<???>"),
        };
        r.push(piece(message, Tone::Payload));
        r.push(piece(String::from_str("\n"), Tone::Plain));
        match location {
            Some(l) => {
                r.push(piece(String::from_str("Location: {\n   file:   "), Tone::Plain));
                r.push(piece(l.file.clone(), Tone::Place));
                r.push(piece(String::from_str("\n   line:   "), Tone::Plain));
                r.push(piece(decimal_text(l.line), Tone::Place));
                r.push(piece(String::from_str("\n   column: "), Tone::Plain));
                r.push(piece(decimal_text(l.column), Tone::Place));
                r.push(piece(String::from_str("\n}\n"), Tone::Plain));
            },
            None => {
                r.push(piece(String::from_str("Location: "), Tone::Plain));
                r.push(piece(String::from_str("src/{unknown}.rs"), Tone::Place));
                r.push(piece(String::from_str(":"), Tone::Plain));
                r.push(piece(String::from_str("??"), Tone::Place));
                r.push(piece(String::from_str(":"), Tone::Plain));
                r.push(piece(String::from_str("??"), Tone::Place));
                r.push(piece(String::from_str("\n"), Tone::Plain));
            },
        }
        r.push(piece(String::from_str("Thread:    "), Tone::Plain));
        let name = match thread {
            Some(t) => String::from_str(t),
            None => String::from_str("{unknown}"),
        };
        r.push(piece(name, Tone::Thread));
        r.push(piece(String::from_str(" (id: "), Tone::Plain));
        r.push(piece(String::from_str(thread_number_text(id_debug)), Tone::Thread));
        r.push(piece(String::from_str(")\n"), Tone::Plain));
        proof {
            assert(segments_view(r@) =~= report_segments(
                match payload {
                    Some(m) => Some(m@),
                    None => None,
                },
                match location {
                    Some(l) => Some((l.file@, l.line, l.column)),
                    None => None,
                },
                match thread {
                    Some(t) => Some(t@),
                    None => None,
                },
                id_debug@,
            ));
        }
        r
    }
}

} // verus!
