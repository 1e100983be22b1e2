//! The layout of log lines.
//!
//! A line reads `<time> ∥ <LEVEL> ∥ <target>::{<spans>} (<file>:<line>): <message>`.
//! It is built here as a sequence of segments, each with the tone it is
//! painted in; painting and writing them out is the logger's part.
use chrono::{Datelike, Timelike};
use vstd::prelude::*;

verus! {

/// The severity of a log event.
#[derive(Debug, Clone, Copy, PartialEq, Eq, Structural)]
pub enum Level {
    Trace,
    Debug,
    Info,
    Warn,
    Error,
}

/// How a segment of a log line is painted.
#[derive(Debug, Clone, Copy, PartialEq, Eq, Structural)]
pub enum Tone {
    /// As it is.
    Plain,
    /// Dimmed: time stamp and origin.
    Dimmed,
    /// The separator between time, level and origin.
    Separator,
    /// The colour of the level.
    Level(Level),
    /// The light grey of the message text.
    Message,
    /// Bold red: the headline of a panic report.
    Alert,
    /// Blue: the panic message.
    Payload,
    /// Purple: where the panic happened.
    Place,
    /// Magenta: the thread that panicked.
    Thread,
}

/// A piece of a log line and its tone.
#[derive(Debug)]
pub struct Segment {
    pub text: String,
    pub tone: Tone,
}

/// The label that a level shows.
pub open spec fn level_label(l: Level) -> Seq<char> {
    match l {
        Level::Trace => "TRACE"@,
        Level::Debug => "DEBUG"@,
        Level::Info => "INFO"@,
        Level::Warn => "WARN"@,
        Level::Error => "ERROR"@,
    }
}

/// The text of the decimal digit `d`.
pub open spec fn digit_text(d: nat) -> Seq<char> {
    if d == 0 {
        "0"@
    } else if d == 1 {
        "1"@
    } else if d == 2 {
        "2"@
    } else if d == 3 {
        "3"@
    } else if d == 4 {
        "4"@
    } else if d == 5 {
        "5"@
    } else if d == 6 {
        "6"@
    } else if d == 7 {
        "7"@
    } else if d == 8 {
        "8"@
    } else {
        "9"@
    }
}

/// `n` written in decimal, without leading zeros.
pub open spec fn decimal(n: nat) -> Seq<char>
    decreases n,
{
    if n < 10 {
        digit_text(n)
    } else {
        decimal(n / 10) + digit_text(n % 10)
    }
}

/// `parts` joined, with `sep` between each two.
pub open spec fn joined(parts: Seq<Seq<char>>, sep: Seq<char>) -> Seq<char>
    decreases parts.len(),
{
    if parts.len() == 0 {
        Seq::empty()
    } else if parts.len() == 1 {
        parts[0]
    } else {
        joined(parts.drop_last(), sep) + sep + parts.last()
    }
}

/// The list of enclosing spans, root first, as it follows the target:
/// nothing when there are none.
pub open spec fn span_suffix(spans: Seq<Seq<char>>) -> Seq<char> {
    if spans.len() == 0 {
        Seq::empty()
    } else {
        "::{"@ + joined(spans, ", "@) + "}"@
    }
}

/// The origin of an event: target, spans, source file and line.
pub open spec fn origin_text(
    target: Seq<char>,
    spans: Seq<Seq<char>>,
    file: Option<Seq<char>>,
    line: Option<u32>,
) -> Seq<char> {
    let file_text = match file {
        Some(f) => f,
        None => "/src/{unknown}.rs"@,
    };
    let line_text = match line {
        Some(n) => decimal(n as nat),
        None => "?"@,
    };
    target + span_suffix(spans) + " ("@ + file_text + ":"@ + line_text + "): "@
}

/// The segments of the log line for one event.
pub open spec fn event_segments(
    time: Seq<char>,
    level: Level,
    target: Seq<char>,
    spans: Seq<Seq<char>>,
    file: Option<Seq<char>>,
    line: Option<u32>,
    message: Seq<char>,
) -> Seq<(Seq<char>, Tone)> {
    seq![
        (time, Tone::Dimmed),
        (" "@, Tone::Plain),
        ("∥"@, Tone::Separator),
        (" "@, Tone::Plain),
        (level_label(level), Tone::Level(level)),
        (" "@, Tone::Plain),
        ("∥"@, Tone::Separator),
        (" "@, Tone::Plain),
        (origin_text(target, spans, file, line), Tone::Dimmed),
        (message, Tone::Message),
        ("\n"@, Tone::Plain),
    ]
}

/// The view of a sequence of segments: text and tone of each.
pub open spec fn segments_view(segs: Seq<Segment>) -> Seq<(Seq<char>, Tone)> {
    segs.map_values(|s: Segment| (s.text@, s.tone))
}

/// The views of a list of strings.
pub open spec fn texts_view(v: Seq<String>) -> Seq<Seq<char>> {
    v.map_values(|s: String| s@)
}

/// The view of an optional text.
pub open spec fn opt_text(o: Option<&str>) -> Option<Seq<char>> {
    match o {
        Some(s) => Some(s@),
        None => None,
    }
}

/// The text of a decimal digit.
fn digit(d: u32) -> (r: &'static str)
    requires
        d < 10,
    ensures
        r@ == digit_text(d as nat),
{
    if d == 0 {
        "0"
    } else if d == 1 {
        "1"
    } else if d == 2 {
        "2"
    } else if d == 3 {
        "3"
    } else if d == 4 {
        "4"
    } else if d == 5 {
        "5"
    } else if d == 6 {
        "6"
    } else if d == 7 {
        "7"
    } else if d == 8 {
        "8"
    } else {
        "9"
    }
}

/// Appends `n` in decimal to `out`.
fn push_decimal(out: &mut String, n: u32)
    ensures
        final(out)@ == old(out)@ + decimal(n as nat),
    decreases n,
{
    if n < 10 {
        out.append(digit(n));
    } else {
        push_decimal(out, n / 10);
        out.append(digit(n % 10));
        proof {
            assert(decimal(n as nat) == decimal((n / 10) as nat) + digit_text((n % 10) as nat));
        }
    }
}

/// `n` written in decimal.
pub fn decimal_text(n: u32) -> (r: String)
    ensures
        r@ == decimal(n as nat),
{
    let mut out = String::new();
    push_decimal(&mut out, n);
    proof {
        assert(out@ =~= decimal(n as nat));
    }
    out
}

/// The label that a level shows.
pub fn level_text(l: Level) -> (r: &'static str)
    ensures
        r@ == level_label(l),
{
    match l {
        Level::Trace => "TRACE",
        Level::Debug => "DEBUG",
        Level::Info => "INFO",
        Level::Warn => "WARN",
        Level::Error => "ERROR",
    }
}

/// Appends the span list that follows the target to `out`.
fn push_spans(out: &mut String, spans: &Vec<String>)
    ensures
        final(out)@ == old(out)@ + span_suffix(texts_view(spans@)),
{
    if spans.len() == 0 {
        proof {
            assert(old(out)@ + span_suffix(texts_view(spans@)) =~= old(out)@);
        }
        return;
    }
    let ghost start = out@;
    let ghost parts = texts_view(spans@);
    out.append("::{");
    let mut i: usize = 0;
    while i < spans.len()
        invariant
            0 <= i <= spans.len(),
            parts == texts_view(spans@),
            spans.len() > 0,
            out@ == start + "::{"@ + joined(parts.take(i as int), ", "@),
        decreases spans.len() - i,
    {
        if i > 0 {
            out.append(", ");
        }
        out.append(spans[i].as_str());
        proof {
            let next = parts.take(i + 1);
            assert(next.drop_last() =~= parts.take(i as int));
            assert(next.last() == spans@[i as int]@);
            if i == 0 {
                assert(parts.take(0) =~= Seq::<Seq<char>>::empty());
                assert(joined(parts.take(0), ", "@) =~= Seq::<char>::empty());
            }
        }
        i = i + 1;
    }
    out.append("}");
    proof {
        assert(parts.take(spans.len() as int) =~= parts);
        assert(out@ =~= start + span_suffix(parts));
    }
}

/// A local date and time, as plain numbers.
#[derive(Debug, Clone, Copy, PartialEq, Eq)]
pub struct LocalTime {
    pub year: i32,
    pub month: u32,
    pub day: u32,
    pub hour: u32,
    pub minute: u32,
    pub second: u32,
}

/// The ranges that a local time's fields lie in.
pub open spec fn time_ok(t: LocalTime) -> bool {
    &&& 1 <= t.month <= 12
    &&& 1 <= t.day <= 31
    &&& t.hour < 24
    &&& t.minute < 60
    &&& t.second < 60
}

/// `k` zeros.
pub open spec fn zeros(k: nat) -> Seq<char>
    decreases k,
{
    if k == 0 {
        Seq::empty()
    } else {
        zeros((k - 1) as nat) + "0"@
    }
}

/// `n` in decimal, with zeros in front up to `width` characters.
pub open spec fn padded(n: nat, width: nat) -> Seq<char> {
    if decimal(n).len() < width {
        zeros((width - decimal(n).len()) as nat) + decimal(n)
    } else {
        decimal(n)
    }
}

/// A year in at least four digits; outside 0 to 9999 with its sign.
pub open spec fn year_text(y: i32) -> Seq<char> {
    if 0 <= y <= 9999 {
        padded(y as nat, 4)
    } else if y > 9999 {
        "+"@ + padded(y as nat, 4)
    } else {
        "-"@ + padded((-y) as nat, 4)
    }
}

/// A time stamp such as `24.06.2024 15:30:45`: day, month, year, then hour,
/// minute and second, each of the five others in two digits.
pub open spec fn stamp_text(t: LocalTime) -> Seq<char> {
    padded(t.day as nat, 2) + "."@ + padded(t.month as nat, 2) + "."@ + year_text(t.year) + " "@
        + padded(t.hour as nat, 2) + ":"@ + padded(t.minute as nat, 2) + ":"@ + padded(
        t.second as nat,
        2,
    )
}

/// Relies on `chrono::Local::now` with the `Datelike` and `Timelike`
/// accessors: the time now in the machine's zone, with month 1 to 12, day 1
/// to 31, hour 0 to 23, minute and second 0 to 59, as their documentation
/// states.
#[verifier::external_body]
fn local_now() -> (r: LocalTime)
    ensures
        time_ok(r),
{
    let now = chrono::Local::now();
    LocalTime {
        year: now.year(),
        month: now.month(),
        day: now.day(),
        hour: now.hour(),
        minute: now.minute(),
        second: now.second(),
    }
}

/// Appends `n` to `out` in decimal, with zeros in front up to `width`.
fn push_padded(out: &mut String, n: u32, width: usize)
    ensures
        final(out)@ == old(out)@ + padded(n as nat, width as nat),
{
    let digits = decimal_text(n);
    let len = digits.as_str().unicode_len();
    let ghost start = out@;
    if len < width {
        let fill = width - len;
        let mut k: usize = 0;
        while k < fill
            invariant
                0 <= k <= fill,
                out@ == start + zeros(k as nat),
            decreases fill - k,
        {
            out.append("0");
            k = k + 1;
        }
    }
    out.append(digits.as_str());
    proof {
        assert(out@ =~= start + padded(n as nat, width as nat));
    }
}

/// Appends the year `y` to `out`, as [`year_text`] writes it.
fn push_year(out: &mut String, y: i32)
    ensures
        final(out)@ == old(out)@ + year_text(y),
{
    let ghost start = out@;
    if 0 <= y && y <= 9999 {
        push_padded(out, y as u32, 4);
    } else if y > 9999 {
        out.append("+");
        push_padded(out, y as u32, 4);
    } else {
        out.append("-");
        let magnitude: i64 = -(y as i64);
        push_padded(out, magnitude as u32, 4);
    }
    proof {
        assert(out@ =~= start + year_text(y));
    }
}

/// Time stamps of log lines.
pub struct Timer;

impl Timer {
    /// The stamp for the local time `t`, e.g. `24.06.2024 15:30:45`.
    pub fn stamp(t: &LocalTime) -> (r: String)
        ensures
            r@ == stamp_text(*t),
    {
        let mut out = String::new();
        push_padded(&mut out, t.day, 2);
        out.append(".");
        push_padded(&mut out, t.month, 2);
        out.append(".");
        push_year(&mut out, t.year);
        out.append(" ");
        push_padded(&mut out, t.hour, 2);
        out.append(":");
        push_padded(&mut out, t.minute, 2);
        out.append(":");
        push_padded(&mut out, t.second, 2);
        proof {
            assert(out@ =~= stamp_text(*t));
        }
        out
    }

    /// The stamp for the local time now.
    pub fn format_time() -> (r: String)
        ensures
            exists|t: LocalTime| time_ok(t) && r@ == stamp_text(t),
    {
        let now = local_now();
        Timer::stamp(&now)
    }
}

/// Writes down log events.
pub struct Tracer;

impl Tracer {
    /// The origin of an event: target, enclosing spans (root first), source
    /// file and line, each with a stand-in where it is unknown.
    pub fn origin(target: &str, spans: &Vec<String>, file: Option<&str>, line: Option<u32>) -> (r:
        String)
        ensures
            r@ == origin_text(target@, texts_view(spans@), opt_text(file), line),
    {
        let mut out = String::from_str(target);
        push_spans(&mut out, spans);
        out.append(" (");
        match file {
            Some(f) => out.append(f),
            None => out.append("/src/{unknown}.rs"),
        }
        out.append(":");
        match line {
            Some(n) => push_decimal(&mut out, n),
            None => out.append("?"),
        }
        out.append("): ");
        proof {
            assert(out@ =~= origin_text(target@, texts_view(spans@), opt_text(file), line));
        }
        out
    }

    /// The segments of the log line for one event: time, level and origin,
    /// then the message (empty where the event carries none).
    pub fn format_event(
        time: &str,
        level: Level,
        target: &str,
        spans: &Vec<String>,
        file: Option<&str>,
        line: Option<u32>,
        message: Option<&str>,
    ) -> (r: Vec<Segment>)
        ensures
            segments_view(r@) == event_segments(
                time@,
                level,
                target@,
                texts_view(spans@),
                opt_text(file),
                line,
                match message {
                    Some(m) => m@,
                    None => Seq::empty(),
                },
            ),
    {
        let mut r: Vec<Segment> = Vec::new();
        r.push(Segment { text: String::from_str(time), tone: Tone::Dimmed });
        r.push(Segment { text: String::from_str(" "), tone: Tone::Plain });
        r.push(Segment { text: String::from_str("∥"), tone: Tone::Separator });
        r.push(Segment { text: String::from_str(" "), tone: Tone::Plain });
        r.push(Segment { text: String::from_str(level_text(level)), tone: Tone::Level(level) });
        r.push(Segment { text: String::from_str(" "), tone: Tone::Plain });
        r.push(Segment { text: String::from_str("∥"), tone: Tone::Separator });
        r.push(Segment { text: String::from_str(" "), tone: Tone::Plain });
        r.push(Segment { text: Tracer::origin(target, spans, file, line), tone: Tone::Dimmed });
        let msg = match message {
            Some(m) => String::from_str(m),
            None => String::new(),
        };
        r.push(Segment { text: msg, tone: Tone::Message });
        r.push(Segment { text: String::from_str("\n"), tone: Tone::Plain });
        proof {
            assert(segments_view(r@) =~= event_segments(
                time@,
                level,
                target@,
                texts_view(spans@),
                opt_text(file),
                line,
                match message {
                    Some(m) => m@,
                    None => Seq::empty(),
                },
            ));
        }
        r
    }
}

/// Whether `a` and `b` hold the same text.
pub fn same_text(a: &str, b: &str) -> (r: bool)
    ensures
        r == (a@ == b@),
{
    let n = a.unicode_len();
    if n != b.unicode_len() {
        return false;
    }
    let mut i: usize = 0;
    while i < n
        invariant
            n == a@.len(),
            n == b@.len(),
            0 <= i <= n,
            forall|j: int| 0 <= j < i ==> a@[j] == b@[j],
        decreases n - i,
    {
        if a.get_char(i) != b.get_char(i) {
            return false;
        }
        i = i + 1;
    }
    proof {
        assert(a@ =~= b@);
    }
    true
}

/// Collects the message of a log event from its fields.
pub struct TracerVisitor {
    /// The message of the event, once a field named `message` was recorded.
    pub msg: Option<String>,
}

impl TracerVisitor {
    /// A visitor that has seen no message yet.
    pub fn new() -> (r: Self)
        ensures
            r.msg is None,
    {
        TracerVisitor { msg: None }
    }

    /// Records a text field: the field named `message` becomes the message,
    /// other fields are ignored.
    pub fn record_str(&mut self, field: &str, value: &str)
        ensures
            field@ == "message"@ ==> (final(self).msg matches Some(m) && m@ == value@),
            field@ != "message"@ ==> final(self).msg == old(self).msg,
    {
        if same_text(field, "message") {
            self.msg = Some(value.to_string());
        }
    }

    /// Records a field given by its debug rendering `rendered`: the field
    /// named `message` becomes the message, other fields are ignored.
    pub fn record_debug(&mut self, field: &str, rendered: String)
        ensures
            field@ == "message"@ ==> (final(self).msg matches Some(m) && m@ == rendered@),
            field@ != "message"@ ==> final(self).msg == old(self).msg,
    {
        if same_text(field, "message") {
            self.msg = Some(rendered);
        }
    }
}

} // verus!
