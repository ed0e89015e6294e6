//! The state that the capture loop, the hotkey listener and the user
//! interface share: the queue, the digest seen last, and the enabled flag.

use crate::digest::{blank_digest, is_novel};
use crate::queue::{after_pop, after_push, after_remove, all_wf, head_of, ClipboardQueue};
use crate::record::{Data, DataView};
use vstd::prelude::*;

verus! {

/// The shared state. It starts disabled, with an empty queue and a blank
/// digest.
#[derive(Debug)]
pub struct SharedState {
    queue: ClipboardQueue,
    last_digest: [u8; 16],
    enabled: bool,
}

/// What a [`SharedState`] holds, as plain mathematical values.
pub struct StateView {
    pub queue: Seq<DataView>,
    pub last_digest: Seq<u8>,
    pub enabled: bool,
}

/// What a paste command found.
#[derive(Debug)]
pub enum PasteStep {
    /// Capturing and replaying are switched off: nothing was done.
    Idle,
    /// The queue was empty: replaying has switched itself off.
    Exhausted,
    /// This record was taken from the head of the queue and is to be
    /// written to the clipboard.
    Replay(Data),
}

impl StateView {
    /// The state that a program starts in.
    pub open spec fn initial() -> StateView {
        StateView { queue: Seq::empty(), last_digest: blank_digest(), enabled: false }
    }

    /// This state with the enabled flag set to `enabled`.
    pub open spec fn with_enabled(self, enabled: bool) -> StateView {
        StateView { enabled, ..self }
    }

    /// This state with the enabled flag flipped.
    pub open spec fn toggled(self) -> StateView {
        StateView { enabled: !self.enabled, ..self }
    }

    /// Whether `record`, when observed in this state, is appended to the
    /// queue: capturing is enabled and the digest differs from the one seen
    /// last.
    pub open spec fn captures(self, record: DataView) -> bool {
        self.enabled && record.digest != self.last_digest
    }

    /// This state after `record` was observed: where it is captured it
    /// stands at the tail of the queue and its digest is the one seen last.
    pub open spec fn after_capture(self, record: DataView) -> StateView {
        if self.captures(record) {
            StateView {
                queue: after_push(self.queue, record),
                last_digest: record.digest,
                ..self
            }
        } else {
            self
        }
    }

    /// The record that a paste command in this state takes for replay.
    pub open spec fn replays(self) -> Option<DataView> {
        if self.enabled {
            head_of(self.queue)
        } else {
            None
        }
    }

    /// This state after a paste command. While enabled, the command takes
    /// the head of the queue; finding the queue empty, it clears the enabled
    /// flag instead.
    pub open spec fn after_paste(self) -> StateView {
        if !self.enabled {
            self
        } else if self.queue.len() == 0 {
            StateView { enabled: false, ..self }
        } else {
            StateView { queue: after_pop(self.queue), ..self }
        }
    }

    /// This state after `record` was written to the clipboard: its digest
    /// is the one seen last.
    pub open spec fn after_written(self, record: DataView) -> StateView {
        StateView { last_digest: record.digest, ..self }
    }

    /// This state after the record at `index` was removed by the user.
    pub open spec fn after_remove(self, index: int) -> StateView {
        StateView { queue: after_remove(self.queue, index), ..self }
    }

    /// This state after the user cleared the queue. The enabled flag and the
    /// digest seen last stay.
    pub open spec fn after_clear(self) -> StateView {
        StateView { queue: Seq::empty(), ..self }
    }
}

impl View for SharedState {
    type V = StateView;

    closed spec fn view(&self) -> StateView {
        StateView {
            queue: self.queue@,
            last_digest: self.last_digest@,
            enabled: self.enabled,
        }
    }
}

impl SharedState {
    /// The state that a program starts in.
    pub fn new() -> (state: SharedState)
        ensures
            state@ == StateView::initial(),
    {
        let last_digest: [u8; 16] = [0u8;16];
        assert(last_digest@ =~= blank_digest());
        SharedState { queue: ClipboardQueue::new(), last_digest, enabled: false }
    }

    /// Whether capturing and replaying are switched on.
    pub fn is_enabled(&self) -> (enabled: bool)
        ensures
            enabled == self@.enabled,
    {
        self.enabled
    }

    /// Switches capturing and replaying on or off.
    pub fn set_enabled(&mut self, enabled: bool)
        ensures
            final(self)@ == old(self)@.with_enabled(enabled),
    {
        self.enabled = enabled;
    }

    /// Flips the enabled flag and returns its new value.
    pub fn toggle_enabled(&mut self) -> (enabled: bool)
        ensures
            final(self)@ == old(self)@.toggled(),
            enabled == !old(self)@.enabled,
    {
        self.enabled = !self.enabled;
        self.enabled
    }

    /// The digest seen last.
    pub fn last_digest(&self) -> (d: [u8; 16])
        ensures
            d@ == self@.last_digest,
    {
        self.last_digest
    }

    /// Number of records in the queue.
    pub fn queue_len(&self) -> (n: usize)
        ensures
            n == self@.queue.len(),
    {
        self.queue.len()
    }

    /// Copies of all queued records, oldest first, for display.
    pub fn snapshot(&self) -> (records: Vec<Data>)
        ensures
            records@.map_values(|d: Data| d@) == self@.queue,
            all_wf(self@.queue),
    {
        self.queue.snapshot()
    }

    /// Removes the record at `index` on the user's request. Does nothing
    /// where the queue has no such position.
    pub fn remove_at(&mut self, index: usize)
        ensures
            final(self)@ == old(self)@.after_remove(index as int),
    {
        self.queue.remove_at(index);
    }

    /// Removes every record on the user's request.
    pub fn clear(&mut self)
        ensures
            final(self)@ == old(self)@.after_clear(),
    {
        self.queue.clear();
    }

    /// Takes in one observed record: compares its digest with the one seen
    /// last and, where capturing is enabled and they differ, makes it the
    /// one seen last and appends the record. Returns whether it was
    /// appended.
    ///
    /// A record whose digest is the one seen last is never appended.
    pub fn capture(&mut self, record: Data) -> (appended: bool)
        ensures
            final(self)@ == old(self)@.after_capture(record@),
            appended == old(self)@.captures(record@),
            record@.digest == old(self)@.last_digest ==> final(self)@ == old(self)@,
    {
        if !self.enabled {
            return false;
        }
        let d = record.get_md5();
        if is_novel(&d, &self.last_digest) {
            self.last_digest = d;
            self.queue.push_back(record);
            true
        } else {
            false
        }
    }

    /// Handles a paste command. While enabled, takes the head of the queue
    /// for replay; finding the queue empty, clears the enabled flag and
    /// leaves the queue empty. While disabled, does nothing.
    pub fn begin_paste(&mut self) -> (step: PasteStep)
        ensures
            final(self)@ == old(self)@.after_paste(),
            match step {
                PasteStep::Idle => !old(self)@.enabled,
                PasteStep::Exhausted => old(self)@.enabled && old(self)@.queue.len() == 0
                    && !final(self)@.enabled && final(self)@.queue.len() == 0,
                PasteStep::Replay(record) => old(self)@.replays() == Some(record@)
                    && record.wf() && final(self)@.enabled,
            },
    {
        if !self.enabled {
            return PasteStep::Idle;
        }
        match self.queue.pop_front() {
            Some(record) => PasteStep::Replay(record),
            None => {
                self.enabled = false;
                PasteStep::Exhausted
            },
        }
    }

    /// Records that `record` was written to the clipboard, so that the next
    /// observation of the same content is not taken for a new capture.
    pub fn paste_written(&mut self, record: &Data)
        ensures
            final(self)@ == old(self)@.after_written(record@),
    {
        self.last_digest = record.get_md5();
    }
}

/// Duplicate suppression: a record whose digest is the one seen last leaves
/// the state, and so the queue, as it was.
pub proof fn law_duplicate_is_suppressed(s: StateView, record: DataView)
    requires
        record.digest == s.last_digest,
    ensures
        s.after_capture(record) == s,
{
}

/// Nothing is captured while capturing is disabled.
pub proof fn law_disabled_captures_nothing(s: StateView, record: DataView)
    requires
        !s.enabled,
    ensures
        s.after_capture(record) == s,
{
}

/// A captured record is suppressed when it is observed again: after a
/// capture, the same content leaves the state as it is.
pub proof fn law_second_sight_is_suppressed(s: StateView, record: DataView, again: DataView)
    requires
        s.enabled,
        record.wf(),
        again.wf(),
        again.raw == record.raw,
    ensures
        s.after_capture(record).after_capture(again) == s.after_capture(record),
{
}

/// No feedback: once a replayed record was written to the clipboard, the
/// observation of that same content appends nothing.
pub proof fn law_replay_is_not_recaptured(s: StateView, seen: DataView)
    requires
        s.replays() is Some,
        s.replays().unwrap().wf(),
        seen.wf(),
        seen.raw == s.replays().unwrap().raw,
    ensures
        ({
            let written = s.after_paste().after_written(s.replays().unwrap());
            written.after_capture(seen) == written
        }),
{
}

/// A paste command that finds the queue empty leaves it empty, replays
/// nothing and clears the enabled flag.
pub proof fn law_exhaustion_disables(s: StateView)
    requires
        s.queue.len() == 0,
    ensures
        s.replays() is None,
        s.after_paste().queue.len() == 0,
        !s.after_paste().enabled,
{
}

/// Taking the last record does not disable: the flag is cleared only by the
/// paste command that finds the queue empty, and clearing the queue leaves
/// the flag as it is.
pub proof fn law_disabling_is_reactive(s: StateView)
    requires
        s.enabled,
    ensures
        s.queue.len() > 0 ==> s.after_paste().enabled,
        s.after_clear().enabled,
        !s.after_clear().after_paste().enabled,
{
}

} // verus!
