//! Decryption of a passphrase-protected OpenPGP message, as a bounded-retry
//! session.
//!
//! The session makes the decisions; the caller performs them. It asks for a
//! passphrase, tries it against the message's symmetric-key-encrypted
//! session-key packets, and on success streams the plaintext out. Each call of
//! [`Decryptor::advance`] takes what happened and returns what to do next.
//! Whether a partially written output is removed after a failed copy is a
//! setting of the decryptor ([`Decryptor::keep_partial_output`]).
//!
//! Only confidentiality is provided: no signature or sender is verified.
use crate::error::DecryptError;
use vstd::prelude::*;

verus! {

/// How many passphrases one decryption may try.
pub const ATTEMPTS: u8 = 3;

/// Where a session stands.
#[derive(Debug, Clone, Copy, PartialEq, Eq, Structural)]
pub enum Phase {
    /// Waiting for a passphrase; `failed` passphrases were rejected so far.
    Asking { failed: u8 },
    /// A passphrase unlocked the message; its content is being streamed out.
    Unlocked,
    /// The copy failed and the partial output is being removed.
    Discarding,
    /// The plaintext was written out in full.
    Succeeded,
    /// The session ended in `error`.
    Failed { error: DecryptError },
}

/// What the caller observed after performing the last step.
#[derive(Debug, Clone, Copy, PartialEq, Eq, Structural)]
pub enum Event {
    /// The user aborted the passphrase prompt.
    Cancelled,
    /// The input is not an OpenPGP message.
    Malformed,
    /// No session-key packet unwrapped with the passphrase entered.
    Rejected,
    /// A session-key packet unwrapped with the passphrase entered.
    Unlocked,
    /// The decrypted content was copied to the output in full.
    Streamed,
    /// Copying the decrypted content to the output failed.
    StreamFailed,
    /// The partial output was removed, or its removal was attempted.
    Discarded,
}

/// What the caller should do next.
#[derive(Debug, Clone, Copy, PartialEq, Eq)]
pub enum Step {
    /// Ask for a passphrase, showing `attempt` out of `total`.
    Prompt { attempt: u8, total: u8 },
    /// Copy the decrypted content to the output file.
    Stream,
    /// Remove the partially written output file.
    Discard,
    /// The decryption is over, with this result. A partial output file may
    /// remain after an `Io` error.
    Finish(Result<(), DecryptError>),
}

/// The phase a session moves to when `e` happens in phase `p`; `keep` says
/// whether a partial output is left in place after a failed copy. An event
/// that does not fit the phase leaves it unchanged.
pub open spec fn next_phase(p: Phase, e: Event, keep: bool) -> Phase {
    match p {
        Phase::Asking { failed } => match e {
            Event::Cancelled => Phase::Failed { error: DecryptError::UserCancelled },
            Event::Malformed => Phase::Failed { error: DecryptError::Malformed },
            Event::Rejected => if failed + 1 >= ATTEMPTS {
                Phase::Failed { error: DecryptError::AuthenticationFailed }
            } else {
                Phase::Asking { failed: (failed + 1) as u8 }
            },
            Event::Unlocked => Phase::Unlocked,
            _ => p,
        },
        Phase::Unlocked => match e {
            Event::Streamed => Phase::Succeeded,
            Event::StreamFailed => if keep {
                Phase::Failed { error: DecryptError::Io }
            } else {
                Phase::Discarding
            },
            _ => p,
        },
        Phase::Discarding => match e {
            Event::Discarded => Phase::Failed { error: DecryptError::Io },
            _ => p,
        },
        _ => p,
    }
}

/// The step that a session in phase `p` asks for.
pub open spec fn step_of(p: Phase) -> Step {
    match p {
        Phase::Asking { failed } => Step::Prompt { attempt: (failed + 1) as u8, total: ATTEMPTS },
        Phase::Unlocked => Step::Stream,
        Phase::Discarding => Step::Discard,
        Phase::Succeeded => Step::Finish(Ok(())),
        Phase::Failed { error } => Step::Finish(Err(error)),
    }
}

/// A phase that a session can be in: fewer rejections than attempts.
pub open spec fn phase_ok(p: Phase) -> bool {
    match p {
        Phase::Asking { failed } => failed < ATTEMPTS,
        _ => true,
    }
}

/// The phase in which every session starts.
pub open spec fn start_phase() -> Phase {
    Phase::Asking { failed: 0 }
}

/// The phase reached from `p` after the events `evs`, in order.
pub open spec fn run(p: Phase, evs: Seq<Event>, keep: bool) -> Phase
    decreases evs.len(),
{
    if evs.len() == 0 {
        p
    } else {
        run(next_phase(p, evs[0], keep), evs.drop_first(), keep)
    }
}

/// How many new passphrase prompts the events `evs` cause from phase `p`.
pub open spec fn prompts_after(p: Phase, evs: Seq<Event>, keep: bool) -> nat
    decreases evs.len(),
{
    if evs.len() == 0 {
        0
    } else {
        let q = next_phase(p, evs[0], keep);
        (if q != p && q is Asking { 1nat } else { 0nat }) + prompts_after(q, evs.drop_first(), keep)
    }
}

proof fn lemma_prompts_from(p: Phase, evs: Seq<Event>, keep: bool)
    requires
        phase_ok(p),
    ensures
        p matches Phase::Asking { failed } ==> failed + 1 + prompts_after(p, evs, keep) <= ATTEMPTS,
        !(p is Asking) ==> prompts_after(p, evs, keep) == 0,
    decreases evs.len(),
{
    if evs.len() > 0 {
        lemma_prompts_from(next_phase(p, evs[0], keep), evs.drop_first(), keep);
    }
}

/// Whatever happens, a session asks for a passphrase at most three times in
/// all: the first prompt and at most two more.
pub proof fn lemma_no_fourth_prompt(evs: Seq<Event>, keep: bool)
    ensures
        1 + prompts_after(start_phase(), evs, keep) <= ATTEMPTS,
{
    lemma_prompts_from(start_phase(), evs, keep);
}

proof fn lemma_finished_stays(p: Phase, evs: Seq<Event>, keep: bool)
    requires
        p is Succeeded || p is Failed,
    ensures
        run(p, evs, keep) == p,
    decreases evs.len(),
{
    if evs.len() > 0 {
        lemma_finished_stays(p, evs.drop_first(), keep);
    }
}

/// Three rejected passphrases end the session in `AuthenticationFailed`, and
/// nothing that happens afterwards brings another prompt.
pub proof fn lemma_third_rejection_fails(evs: Seq<Event>, keep: bool)
    ensures
        run(start_phase(), seq![Event::Rejected, Event::Rejected, Event::Rejected] + evs, keep)
            == (Phase::Failed { error: DecryptError::AuthenticationFailed }),
        step_of(
            run(start_phase(), seq![Event::Rejected, Event::Rejected, Event::Rejected] + evs, keep),
        ) == Step::Finish(Err(DecryptError::AuthenticationFailed)),
{
    let three = seq![Event::Rejected, Event::Rejected, Event::Rejected];
    let all = three + evs;
    assert(all[0] == Event::Rejected);
    assert(all.drop_first() =~= seq![Event::Rejected, Event::Rejected] + evs);
    let a1 = all.drop_first();
    assert(a1[0] == Event::Rejected);
    assert(a1.drop_first() =~= seq![Event::Rejected] + evs);
    let a2 = a1.drop_first();
    assert(a2[0] == Event::Rejected);
    assert(a2.drop_first() =~= evs);
    let failed = Phase::Failed { error: DecryptError::AuthenticationFailed };
    assert(run(start_phase(), all, keep) == run(Phase::Asking { failed: 1 }, a1, keep));
    assert(run(Phase::Asking { failed: 1 }, a1, keep) == run(Phase::Asking { failed: 2 }, a2, keep));
    assert(run(Phase::Asking { failed: 2 }, a2, keep) == run(failed, evs, keep));
    lemma_finished_stays(failed, evs, keep);
}

/// What to do next while looking for the session-key packet that a
/// passphrase unlocks.
#[derive(Debug, Clone, Copy, PartialEq, Eq)]
pub enum PacketStep {
    /// Try the packet at this position.
    Try(usize),
    /// The packet at this position unlocked: it decides the session key.
    Found(usize),
    /// No packet unlocked with this passphrase.
    Exhausted,
}

/// Whether none of `outcomes` is a success.
pub open spec fn none_unlocked(outcomes: Seq<bool>) -> bool {
    forall|j: int| 0 <= j < outcomes.len() ==> !outcomes[j]
}

/// Search, in the order the packets appear, for the first session-key packet
/// that a passphrase unlocks. Later packets are not tried once one unlocks.
pub struct PacketSearch {
    count: usize,
    next: usize,
    found: bool,
    seen: Ghost<Seq<bool>>,
}

impl PacketSearch {
    /// How many packets the message holds.
    pub closed spec fn spec_count(&self) -> nat {
        self.count as nat
    }

    /// The outcomes of the packets tried so far, in order.
    pub closed spec fn spec_seen(&self) -> Seq<bool> {
        self.seen@
    }

    /// Whether the search has ended, found or exhausted.
    pub closed spec fn spec_done(&self) -> bool {
        self.found || self.next >= self.count
    }

    pub closed spec fn wf(&self) -> bool {
        &&& self.next <= self.count
        &&& self.seen@.len() == (if self.found { self.next + 1 } else { self.next as int })
        &&& self.found ==> self.next < self.count && self.seen@[self.next as int]
        &&& forall|j: int| 0 <= j < self.next ==> !self.seen@[j]
    }

    /// A search over `count` packets; its first step tries the first packet,
    /// if there is one.
    pub fn new(count: usize) -> (r: (PacketSearch, PacketStep))
        ensures
            r.0.wf(),
            r.0.spec_count() == count,
            r.0.spec_seen() == Seq::<bool>::empty(),
            count == 0 ==> r.1 == PacketStep::Exhausted,
            count > 0 ==> r.1 == PacketStep::Try(0),
            r.0.spec_done() == (count == 0),
    {
        let s = PacketSearch { count, next: 0, found: false, seen: Ghost(Seq::empty()) };
        if count == 0 {
            (s, PacketStep::Exhausted)
        } else {
            (s, PacketStep::Try(0))
        }
    }

    /// Takes whether the packet just tried unlocked, and returns the next
    /// step: the first packet that unlocked, the following packet, or the
    /// end of the packets.
    pub fn advance(&mut self, unlocked: bool) -> (r: PacketStep)
        requires
            old(self).wf(),
            !old(self).spec_done(),
        ensures
            final(self).wf(),
            final(self).spec_count() == old(self).spec_count(),
            final(self).spec_seen() == old(self).spec_seen().push(unlocked),
            unlocked ==> r == PacketStep::Found(old(self).spec_seen().len() as usize),
            !unlocked && final(self).spec_seen().len() < final(self).spec_count() ==> r
                == PacketStep::Try(final(self).spec_seen().len() as usize),
            !unlocked && final(self).spec_seen().len() == final(self).spec_count() ==> r
                == PacketStep::Exhausted,
            r matches PacketStep::Found(i) ==> {
                &&& i == old(self).spec_seen().len()
                &&& unlocked
                &&& none_unlocked(old(self).spec_seen())
            },
            r matches PacketStep::Try(i) ==> {
                &&& i == final(self).spec_seen().len()
                &&& i < final(self).spec_count()
                &&& none_unlocked(final(self).spec_seen())
            },
            r is Exhausted ==> {
                &&& final(self).spec_seen().len() == final(self).spec_count()
                &&& none_unlocked(final(self).spec_seen())
            },
            final(self).spec_done() <==> !(r is Try),
    {
        self.seen = Ghost(self.seen@.push(unlocked));
        if unlocked {
            self.found = true;
            PacketStep::Found(self.next)
        } else {
            self.next = self.next + 1;
            if self.next < self.count {
                PacketStep::Try(self.next)
            } else {
                PacketStep::Exhausted
            }
        }
    }
}

/// Decryptor of a passphrase-protected OpenPGP message: where the message is,
/// where its plaintext goes, and how far the passphrase session has come.
pub struct Decryptor {
    enc_path: String,
    dec_path: String,
    keep_partial: bool,
    phase: Phase,
}

impl Decryptor {
    /// Path of the encrypted message.
    pub closed spec fn spec_input(&self) -> Seq<char> {
        self.enc_path@
    }

    /// Path of the plaintext output.
    pub closed spec fn spec_output(&self) -> Seq<char> {
        self.dec_path@
    }

    /// Whether a partial output stays in place after a failed copy.
    pub closed spec fn spec_keep(&self) -> bool {
        self.keep_partial
    }

    /// Where the current session stands.
    pub closed spec fn spec_phase(&self) -> Phase {
        self.phase
    }

    pub closed spec fn wf(&self) -> bool {
        phase_ok(self.phase)
    }

    /// A decryptor with empty paths, ready to start a session. A partial
    /// output stays in place after a failed copy unless
    /// [`Decryptor::keep_partial_output`] says otherwise.
    pub fn new() -> (r: Self)
        ensures
            r.wf(),
            r.spec_input() == Seq::<char>::empty(),
            r.spec_output() == Seq::<char>::empty(),
            r.spec_keep(),
            r.spec_phase() == start_phase(),
    {
        Decryptor {
            enc_path: String::new(),
            dec_path: String::new(),
            keep_partial: true,
            phase: Phase::Asking { failed: 0 },
        }
    }

    /// Sets whether a partially written output stays in place after a failed
    /// copy (`true`) or is removed before the session ends (`false`). Either
    /// way the session ends in `Io`, and the output is not to be trusted.
    pub fn keep_partial_output(&mut self, keep: bool) -> (r: &mut Self)
        requires
            old(self).wf(),
        ensures
            r.wf(),
            r.spec_keep() == keep,
            r.spec_input() == old(self).spec_input(),
            r.spec_output() == old(self).spec_output(),
            r.spec_phase() == old(self).spec_phase(),
            *final(self) == *final(r),
    {
        self.keep_partial = keep;
        self
    }

    /// Sets the path of the encrypted message.
    pub fn input(&mut self, path: String) -> (r: &mut Self)
        requires
            old(self).wf(),
        ensures
            r.wf(),
            r.spec_input() == path@,
            r.spec_output() == old(self).spec_output(),
            r.spec_keep() == old(self).spec_keep(),
            r.spec_phase() == old(self).spec_phase(),
            *final(self) == *final(r),
    {
        self.enc_path = path;
        self
    }

    /// Sets the path where the plaintext is written.
    pub fn output(&mut self, path: String) -> (r: &mut Self)
        requires
            old(self).wf(),
        ensures
            r.wf(),
            r.spec_output() == path@,
            r.spec_input() == old(self).spec_input(),
            r.spec_keep() == old(self).spec_keep(),
            r.spec_phase() == old(self).spec_phase(),
            *final(self) == *final(r),
    {
        self.dec_path = path;
        self
    }

    /// The path of the encrypted message.
    pub fn input_path(&self) -> (r: &str)
        ensures
            r@ == self.spec_input(),
    {
        self.enc_path.as_str()
    }

    /// The path where the plaintext is written.
    pub fn output_path(&self) -> (r: &str)
        ensures
            r@ == self.spec_output(),
    {
        self.dec_path.as_str()
    }

    /// Starts a new session and returns its first step: the first of three
    /// passphrase prompts.
    pub fn build(&mut self) -> (r: Step)
        ensures
            final(self).wf(),
            final(self).spec_phase() == start_phase(),
            final(self).spec_input() == old(self).spec_input(),
            final(self).spec_output() == old(self).spec_output(),
            final(self).spec_keep() == old(self).spec_keep(),
            r == step_of(start_phase()),
            r == (Step::Prompt { attempt: 1, total: ATTEMPTS }),
    {
        self.phase = Phase::Asking { failed: 0 };
        Step::Prompt { attempt: 1, total: ATTEMPTS }
    }

    /// Takes what happened after the last step and returns the next one.
    pub fn advance(&mut self, e: Event) -> (r: Step)
        requires
            old(self).wf(),
        ensures
            final(self).wf(),
            final(self).spec_phase() == next_phase(old(self).spec_phase(), e, old(self).spec_keep()),
            final(self).spec_input() == old(self).spec_input(),
            final(self).spec_output() == old(self).spec_output(),
            final(self).spec_keep() == old(self).spec_keep(),
            r == step_of(final(self).spec_phase()),
    {
        let next = match self.phase {
            Phase::Asking { failed } => match e {
                Event::Cancelled => Phase::Failed { error: DecryptError::UserCancelled },
                Event::Malformed => Phase::Failed { error: DecryptError::Malformed },
                Event::Rejected => if failed + 1 >= ATTEMPTS {
                    Phase::Failed { error: DecryptError::AuthenticationFailed }
                } else {
                    Phase::Asking { failed: failed + 1 }
                },
                Event::Unlocked => Phase::Unlocked,
                _ => self.phase,
            },
            Phase::Unlocked => match e {
                Event::Streamed => Phase::Succeeded,
                Event::StreamFailed => if self.keep_partial {
                    Phase::Failed { error: DecryptError::Io }
                } else {
                    Phase::Discarding
                },
                _ => self.phase,
            },
            Phase::Discarding => match e {
                Event::Discarded => Phase::Failed { error: DecryptError::Io },
                _ => self.phase,
            },
            _ => self.phase,
        };
        self.phase = next;
        self.step()
    }

    /// The step that the session asks for now.
    pub fn step(&self) -> (r: Step)
        requires
            self.wf(),
        ensures
            r == step_of(self.spec_phase()),
    {
        match self.phase {
            Phase::Asking { failed } => Step::Prompt { attempt: failed + 1, total: ATTEMPTS },
            Phase::Unlocked => Step::Stream,
            Phase::Discarding => Step::Discard,
            Phase::Succeeded => Step::Finish(Ok(())),
            Phase::Failed { error } => Step::Finish(Err(error)),
        }
    }
}

} // verus!
