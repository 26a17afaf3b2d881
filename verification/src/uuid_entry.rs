//! The debounced, UUID-validating entry field.
//!
//! The field wraps a text buffer fed one keystroke (or one whole string)
//! at a time, as by a barcode scanner emulating a keyboard.  Every
//! non-empty change cancels the pending one-shot timer, if any, and
//! schedules a new one for `timeout` milliseconds later, so at most one
//! timer is ever live.  When the timer fires with no further change, a
//! buffer that does not hold a canonical UUID string is cleared.  On
//! explicit submission the buffer is cleared unconditionally and the
//! parsed identifier is returned if, and only if, it was canonical.
//!
//! All events run on a single event loop, so each carries a millisecond
//! timestamp `now` that never decreases from one event to the next.

use vstd::prelude::*;

use crate::uuid_format::is_canonical;
use crate::uuid_format::is_canonical_uuid;
use crate::uuid_format::parse_uuid;
use crate::uuid_format::uuid_bytes;
use crate::uuid_format::UuidValue;

verus! {

/// The one-shot debounce timer pending on a field: when it was
/// scheduled, and when it is due to fire.
#[derive(Clone, Copy, PartialEq, Eq, Structural, Debug)]
pub struct PendingTimer {
    pub scheduled_at: u64,
    pub deadline: u64,
}

/// What delivering a point in time to the field did.
#[derive(Clone, Copy, PartialEq, Eq, Structural, Debug)]
pub enum ElapseOutcome {
    /// No timer was pending.
    Idle,
    /// A timer is pending but its deadline has not been reached.
    Waiting,
    /// The timer fired on a canonical UUID string; the buffer was kept.
    KeptValid,
    /// The timer fired on anything else; the buffer was cleared.  The
    /// caller may report a diagnostic.
    ClearedInvalid,
}

/// Abstract state of a field: the buffer contents, the debounce
/// timeout, the pending timer slot, and the time of the last event.
#[verifier::ext_equal]
pub ghost struct FieldModel {
    pub timeout: u64,
    pub buffer: Seq<char>,
    pub pending: Option<PendingTimer>,
    pub clock: u64,
}

/// Timing invariant of a field: a pending timer was scheduled no later
/// than the last event, for exactly `timeout` milliseconds after its
/// scheduling.  (That at most one timer is live is structural: the slot
/// holds at most one.)
pub open spec fn field_wf(m: FieldModel) -> bool {
    m.pending matches Some(t) ==> t.deadline == t.scheduled_at + m.timeout && t.scheduled_at
        <= m.clock
}

/// State of a freshly constructed field: empty buffer, no timer.
pub open spec fn init_model(timeout: u64) -> FieldModel {
    FieldModel { timeout, buffer: Seq::empty(), pending: None, clock: 0 }
}

/// The content-change rule: the buffer takes the new text; a change to
/// empty text is a reset, not an edit, and leaves the timer slot alone;
/// any other change replaces the pending timer (cancelling the old one)
/// with one scheduled now.
pub open spec fn changed_step(m: FieldModel, text: Seq<char>, now: u64) -> FieldModel {
    if text.len() == 0 {
        FieldModel { buffer: text, clock: now, ..m }
    } else {
        FieldModel {
            buffer: text,
            clock: now,
            pending: Some(
                PendingTimer { scheduled_at: now, deadline: (now + m.timeout) as u64 },
            ),
            ..m
        }
    }
}

/// Whether the pending timer is due at `now`.
pub open spec fn timer_due(m: FieldModel, now: u64) -> bool {
    m.pending matches Some(t) && t.deadline <= now
}

/// The timer-expiry rule: when the pending timer is due, the timer
/// record is cleared whatever the outcome, and a buffer that is not a
/// canonical UUID string is cleared; a canonical one is left in place.
pub open spec fn elapse_step(m: FieldModel, now: u64) -> FieldModel {
    if timer_due(m, now) {
        if is_canonical_uuid(m.buffer) {
            FieldModel { pending: None, clock: now, ..m }
        } else {
            FieldModel { pending: None, clock: now, buffer: Seq::empty(), ..m }
        }
    } else {
        FieldModel { clock: now, ..m }
    }
}

/// What delivering `now` to the field reports.
pub open spec fn elapse_outcome(m: FieldModel, now: u64) -> ElapseOutcome {
    if m.pending is None {
        ElapseOutcome::Idle
    } else if !timer_due(m, now) {
        ElapseOutcome::Waiting
    } else if is_canonical_uuid(m.buffer) {
        ElapseOutcome::KeptValid
    } else {
        ElapseOutcome::ClearedInvalid
    }
}

/// The submission rule for the state: the buffer is cleared
/// unconditionally and the timer slot is emptied; the field returns to
/// its initial shape.
pub open spec fn submit_step(m: FieldModel) -> FieldModel {
    FieldModel { buffer: Seq::empty(), pending: None, ..m }
}

/// The submission rule for the result: the identifier encoded by the
/// buffer if it was canonical, nothing otherwise.
pub open spec fn submit_value(m: FieldModel) -> Option<Seq<u8>> {
    if is_canonical_uuid(m.buffer) {
        Some(uuid_bytes(m.buffer))
    } else {
        None
    }
}

/// A debounced entry field that accepts only canonical UUID strings.
pub struct UuidEntry {
    timeout: u64,
    buffer: Vec<char>,
    pending: Option<PendingTimer>,
    clock: u64,
}

impl View for UuidEntry {
    type V = FieldModel;

    closed spec fn view(&self) -> FieldModel {
        FieldModel {
            timeout: self.timeout,
            buffer: self.buffer@,
            pending: self.pending,
            clock: self.clock,
        }
    }
}

impl UuidEntry {
    /// Creates a field with an empty buffer and no pending timer.
    pub fn new(timeout: u64) -> (r: Self)
        ensures
            r@ == init_model(timeout),
            field_wf(r@),
    {
        let r = UuidEntry { timeout, buffer: Vec::new(), pending: None, clock: 0 };
        proof {
            assert(r@ =~= init_model(timeout));
        }
        r
    }

    /// Replaces the buffer with `text` at time `now`, applying the
    /// content-change rule.
    pub fn set_text(&mut self, text: Vec<char>, now: u64)
        requires
            field_wf(old(self)@),
            old(self)@.clock <= now,
            now + old(self)@.timeout <= u64::MAX,
        ensures
            final(self)@ == changed_step(old(self)@, text@, now),
            field_wf(final(self)@),
    {
        self.buffer = text;
        if self.buffer.len() > 0 {
            self.pending = Some(
                PendingTimer { scheduled_at: now, deadline: now + self.timeout },
            );
        }
        self.clock = now;
        proof {
            assert(self@ =~= changed_step(old(self)@, self.buffer@, now));
        }
    }

    /// Appends one keystroke to the buffer at time `now`, applying the
    /// content-change rule; the buffer is then never empty, so this
    /// always (re)schedules the timer.
    pub fn push_char(&mut self, c: char, now: u64)
        requires
            field_wf(old(self)@),
            old(self)@.clock <= now,
            now + old(self)@.timeout <= u64::MAX,
        ensures
            final(self)@ == changed_step(old(self)@, old(self)@.buffer.push(c), now),
            field_wf(final(self)@),
    {
        self.buffer.push(c);
        self.pending = Some(PendingTimer { scheduled_at: now, deadline: now + self.timeout });
        self.clock = now;
        proof {
            assert(self@ =~= changed_step(old(self)@, old(self)@.buffer.push(c), now));
        }
    }

    /// Delivers the time `now` to the field: a pending timer whose
    /// deadline has been reached fires once, validating the buffer;
    /// otherwise nothing happens.
    pub fn elapse(&mut self, now: u64) -> (outcome: ElapseOutcome)
        requires
            field_wf(old(self)@),
            old(self)@.clock <= now,
        ensures
            final(self)@ == elapse_step(old(self)@, now),
            outcome == elapse_outcome(old(self)@, now),
            field_wf(final(self)@),
    {
        let outcome: ElapseOutcome;
        match self.pending {
            None => {
                outcome = ElapseOutcome::Idle;
            },
            Some(t) => {
                if now < t.deadline {
                    outcome = ElapseOutcome::Waiting;
                } else {
                    if is_canonical(&self.buffer) {
                        outcome = ElapseOutcome::KeptValid;
                    } else {
                        self.buffer = Vec::new();
                        outcome = ElapseOutcome::ClearedInvalid;
                    }
                    self.pending = None;
                }
            },
        }
        self.clock = now;
        proof {
            assert(self@ =~= elapse_step(old(self)@, now));
        }
        outcome
    }

    /// Submission: reads the buffer, clears the field unconditionally,
    /// and returns the parsed identifier if the buffer was canonical.
    /// An invalid buffer is reported only by the absent result.
    pub fn get_uuid(&mut self) -> (r: Option<UuidValue>)
        ensures
            final(self)@ == submit_step(old(self)@),
            r is Some <==> submit_value(old(self)@) is Some,
            r matches Some(v) ==> submit_value(old(self)@) == Some(v@),
    {
        let r = parse_uuid(&self.buffer);
        self.buffer = Vec::new();
        self.pending = None;
        proof {
            assert(self@ =~= submit_step(old(self)@));
        }
        r
    }

    /// Whether the buffer is empty.
    pub fn is_empty(&self) -> (b: bool)
        ensures
            b == (self@.buffer.len() == 0),
    {
        self.buffer.len() == 0
    }

    /// The current buffer contents.
    pub fn text(&self) -> (t: &Vec<char>)
        ensures
            t@ == self@.buffer,
    {
        &self.buffer
    }

    /// The buffer contents, or `None` if the buffer is empty.
    pub fn text_nonempty(&self) -> (t: Option<&Vec<char>>)
        ensures
            t is Some <==> self@.buffer.len() > 0,
            t matches Some(v) ==> v@ == self@.buffer,
    {
        if self.buffer.len() == 0 {
            None
        } else {
            Some(&self.buffer)
        }
    }

    /// The debounce timeout, in milliseconds.
    pub fn timeout(&self) -> (t: u64)
        ensures
            t == self@.timeout,
    {
        self.timeout
    }

    /// The pending timer slot.
    pub fn pending_timer(&self) -> (p: Option<PendingTimer>)
        ensures
            p == self@.pending,
    {
        self.pending
    }

    /// The time of the last event delivered to the field.
    pub fn last_event_at(&self) -> (t: u64)
        ensures
            t == self@.clock,
    {
        self.clock
    }
}

/// One keystroke: the content-change rule applied to the buffer with
/// one character appended.
pub open spec fn feed_step(m: FieldModel, c: char, now: u64) -> FieldModel {
    changed_step(m, m.buffer.push(c), now)
}

/// A whole string fed one keystroke at a time, as a scanner bursts its
/// characters into the field.
pub open spec fn feed_all(m: FieldModel, s: Seq<char>, now: u64) -> FieldModel
    decreases s.len(),
{
    if s.len() == 0 {
        m
    } else {
        feed_all(feed_step(m, s[0], now), s.subrange(1, s.len() as int), now)
    }
}

/// Feeding characters only ever appends them: the buffer afterwards is
/// the old buffer followed by the fed string.
pub proof fn lemma_feed_all_buffer(m: FieldModel, s: Seq<char>, now: u64)
    ensures
        feed_all(m, s, now).buffer == m.buffer + s,
        feed_all(m, s, now).timeout == m.timeout,
    decreases s.len(),
{
    if s.len() == 0 {
        assert(m.buffer + s =~= m.buffer);
    } else {
        let m1 = feed_step(m, s[0], now);
        lemma_feed_all_buffer(m1, s.subrange(1, s.len() as int), now);
        assert(m.buffer.push(s[0]) + s.subrange(1, s.len() as int) =~= m.buffer + s);
    }
}

/// After any non-empty change, once the debounce timeout has elapsed
/// with no further input and the timer has fired, the buffer holds a
/// canonical UUID string or is empty.
pub proof fn lemma_debounce_settles(m: FieldModel, text: Seq<char>, t_edit: u64, t_fire: u64)
    requires
        text.len() > 0,
        t_edit + m.timeout <= u64::MAX,
        t_edit + m.timeout <= t_fire,
    ensures
        ({
            let settled = elapse_step(changed_step(m, text, t_edit), t_fire);
            is_canonical_uuid(settled.buffer) || settled.buffer.len() == 0
        }),
{
}

/// Submission is idempotent: a second submission on the already-reset
/// field returns no value and changes nothing.
pub proof fn lemma_submit_idempotent(m: FieldModel)
    ensures
        submit_value(submit_step(m)) is None,
        submit_step(submit_step(m)) == submit_step(m),
        submit_step(m).buffer.len() == 0,
{
    assert(submit_step(submit_step(m)) =~= submit_step(m));
}

/// A later edit supersedes the earlier timer: after edits at `t0` and
/// then `t1`, only the timer scheduled at `t1` is pending, and nothing
/// fires before its deadline `t1 + timeout`.
pub proof fn lemma_timer_supersession(
    m: FieldModel,
    text0: Seq<char>,
    text1: Seq<char>,
    t0: u64,
    t1: u64,
    now: u64,
)
    requires
        text0.len() > 0,
        text1.len() > 0,
        t0 <= t1,
        t1 + m.timeout <= u64::MAX,
        now < t1 + m.timeout,
    ensures
        ({
            let m1 = changed_step(changed_step(m, text0, t0), text1, t1);
            &&& m1.pending == Some(
                PendingTimer { scheduled_at: t1, deadline: (t1 + m.timeout) as u64 },
            )
            &&& elapse_step(m1, now) == (FieldModel { clock: now, ..m1 })
        }),
{
    let m1 = changed_step(changed_step(m, text0, t0), text1, t1);
    assert(elapse_step(m1, now) =~= (FieldModel { clock: now, ..m1 }));
}

/// Validation never mutates valid content: when the buffer holds a
/// canonical UUID string, a firing timer leaves it untouched.
pub proof fn lemma_valid_content_preserved(m: FieldModel, now: u64)
    requires
        is_canonical_uuid(m.buffer),
    ensures
        elapse_step(m, now).buffer == m.buffer,
{
}

/// Round trip: feeding a canonical UUID string one keystroke at a time
/// into an empty field, then letting any amount of time pass, leaves
/// the buffer holding exactly that string, ready to be submitted as the
/// identifier it encodes.
pub proof fn lemma_round_trip(m: FieldModel, s: Seq<char>, t_feed: u64, t_fire: u64)
    requires
        m.buffer.len() == 0,
        is_canonical_uuid(s),
    ensures
        feed_all(m, s, t_feed).buffer == s,
        elapse_step(feed_all(m, s, t_feed), t_fire).buffer == s,
        submit_value(feed_all(m, s, t_feed)) == Some(uuid_bytes(s)),
{
    lemma_feed_all_buffer(m, s, t_feed);
    assert(m.buffer + s =~= s);
}

/// Construction establishes the timing invariant.
pub proof fn lemma_wf_init(timeout: u64)
    ensures
        field_wf(init_model(timeout)),
{
}

/// The content-change rule preserves the timing invariant when events
/// arrive in time order and the new deadline fits the clock.
pub proof fn lemma_wf_changed(m: FieldModel, text: Seq<char>, now: u64)
    requires
        field_wf(m),
        m.clock <= now,
        now + m.timeout <= u64::MAX,
    ensures
        field_wf(changed_step(m, text, now)),
{
}

/// The timer-expiry rule preserves the timing invariant.
pub proof fn lemma_wf_elapse(m: FieldModel, now: u64)
    requires
        field_wf(m),
        m.clock <= now,
    ensures
        field_wf(elapse_step(m, now)),
{
}

/// The submission rule preserves the timing invariant.
pub proof fn lemma_wf_submit(m: FieldModel)
    requires
        field_wf(m),
    ensures
        field_wf(submit_step(m)),
{
}

} // verus!
