//! One tick of the capture loop.
//!
//! The loop itself, its pause between ticks and the reading of the clipboard
//! belong to the caller. A tick hands over what it observed and gets back
//! what became of it. The two halves of a tick can also be called one by
//! one, so that a caller who guards the shared state with a lock holds it
//! only for the second: [`prepare`] builds the record without the state,
//! [`commit`] compares, updates and appends in one step.

use crate::digest::md5_of;
use crate::errors::DecodeFault;
use crate::format::Format;
use crate::record::{captured_text, capture_fault, Data, DataView};
use crate::state::{SharedState, StateView};
use vstd::prelude::*;

verus! {

/// The recommended pause between two ticks, in milliseconds.
pub const TICK_MILLIS: u64 = 500;

/// What one look at the clipboard found.
#[derive(Debug)]
pub enum Observation {
    /// None of the supported formats is on the clipboard.
    NoFormat,
    /// A supported format is there, but reading it failed.
    ReadFault,
    /// The payload `raw` was read under `format`; `text` is the clipboard's
    /// text, where the format is a text format and reading it succeeded.
    Content { format: Format, raw: Vec<u8>, text: Option<String> },
}

/// What became of an observation.
#[derive(Clone, Copy, Debug, PartialEq, Eq, Structural)]
pub enum TickOutcome {
    /// Capturing is switched off.
    Disabled,
    /// There was nothing to capture.
    NoFormat,
    /// The read failed; the next tick tries again.
    ReadFault,
    /// The payload did not decode and was dropped.
    Dropped(DecodeFault),
    /// The content is the one seen last and was discarded.
    Duplicate,
    /// The content was appended to the queue.
    Captured,
}

/// The outcome that `observed` has whatever the state holds, if it yields no
/// record: there was no format, the read failed, or the payload does not
/// decode.
pub open spec fn skip_outcome(observed: Observation) -> Option<TickOutcome> {
    match observed {
        Observation::NoFormat => Some(TickOutcome::NoFormat),
        Observation::ReadFault => Some(TickOutcome::ReadFault),
        Observation::Content { format, raw, text } => match capture_fault(format, raw@) {
            Some(fault) => Some(TickOutcome::Dropped(fault)),
            None => None,
        },
    }
}

/// `record` is the record of the observation `observed`.
pub open spec fn is_record_of(record: DataView, observed: Observation) -> bool {
    observed matches Observation::Content { format, raw, text } && {
        &&& record.wf()
        &&& record.format == format
        &&& record.raw == raw@
        &&& record.text == captured_text(format, text)
    }
}

/// The outcome of handing `record` to the state `s`.
pub open spec fn commit_outcome(s: StateView, record: DataView) -> TickOutcome {
    if !s.enabled {
        TickOutcome::Disabled
    } else if record.digest == s.last_digest {
        TickOutcome::Duplicate
    } else {
        TickOutcome::Captured
    }
}

/// The digest of the payload that `observed` holds.
pub open spec fn observed_digest(observed: Observation) -> Seq<u8> {
    match observed {
        Observation::Content { format, raw, text } => md5_of(raw@),
        _ => md5_of(Seq::empty()),
    }
}

/// The outcome of a tick in state `s` on the observation `observed`.
pub open spec fn tick_outcome(s: StateView, observed: Observation) -> TickOutcome {
    if !s.enabled {
        TickOutcome::Disabled
    } else {
        match skip_outcome(observed) {
            Some(outcome) => outcome,
            None => if observed_digest(observed) == s.last_digest {
                TickOutcome::Duplicate
            } else {
                TickOutcome::Captured
            },
        }
    }
}

/// Whether a tick should look at the clipboard at all.
pub fn wants_capture(state: &SharedState) -> (wanted: bool)
    ensures
        wanted == state@.enabled,
{
    state.is_enabled()
}

/// The first half of a tick: builds the record of what was observed. Yields
/// the outcome instead where there is no record to build.
pub fn prepare(observed: Observation) -> (r: Result<Data, TickOutcome>)
    ensures
        match r {
            Ok(record) => skip_outcome(observed) is None && is_record_of(record@, observed),
            Err(outcome) => skip_outcome(observed) == Some(outcome),
        },
{
    match observed {
        Observation::NoFormat => Err(TickOutcome::NoFormat),
        Observation::ReadFault => Err(TickOutcome::ReadFault),
        Observation::Content { format, raw, text } => {
            match Data::build(format, raw, text) {
                Ok(record) => Ok(record),
                Err(fault) => Err(TickOutcome::Dropped(fault)),
            }
        },
    }
}

/// The second half of a tick: compares the digest of `record` with the one
/// seen last and, where capturing is enabled and they differ, makes it the
/// one seen last and appends the record, all in one step.
pub fn commit(state: &mut SharedState, record: Data) -> (outcome: TickOutcome)
    ensures
        outcome == commit_outcome(old(state)@, record@),
        final(state)@ == old(state)@.after_capture(record@),
        outcome != TickOutcome::Captured ==> final(state)@ == old(state)@,
{
    if !state.is_enabled() {
        return TickOutcome::Disabled;
    }
    if state.capture(record) {
        TickOutcome::Captured
    } else {
        TickOutcome::Duplicate
    }
}

/// Performs one tick on what was observed.
///
/// Only the outcome `Captured` changes the state: the record of the
/// observation then stands at the tail of the queue and its digest is the
/// one seen last. A disabled state, a missing format, a failed read, a
/// payload that does not decode and content whose digest is the one seen
/// last all leave the state as it was.
pub fn monitor_tick(state: &mut SharedState, observed: Observation) -> (outcome: TickOutcome)
    ensures
        outcome == tick_outcome(old(state)@, observed),
        outcome != TickOutcome::Captured ==> final(state)@ == old(state)@,
        outcome == TickOutcome::Captured ==> {
            &&& final(state)@.queue.len() == old(state)@.queue.len() + 1
            &&& is_record_of(final(state)@.queue.last(), observed)
            &&& final(state)@ == old(state)@.after_capture(final(state)@.queue.last())
        },
{
    if !state.is_enabled() {
        return TickOutcome::Disabled;
    }
    match prepare(observed) {
        Err(outcome) => outcome,
        Ok(record) => commit(state, record),
    }
}

/// The two halves of a tick make the whole: the outcome of a tick is that
/// of preparing where there is no record, and else that of committing the
/// record.
pub proof fn law_tick_is_prepare_then_commit(s: StateView, observed: Observation, record: DataView)
    requires
        s.enabled,
    ensures
        skip_outcome(observed) matches Some(outcome) ==> tick_outcome(s, observed) == outcome,
        skip_outcome(observed) is None && is_record_of(record, observed) ==> tick_outcome(
            s,
            observed,
        ) == commit_outcome(s, record),
{
}

/// A tick never captures content whose digest is the one seen last, and
/// never captures while disabled.
pub proof fn law_tick_suppresses(s: StateView, observed: Observation)
    ensures
        !s.enabled ==> tick_outcome(s, observed) == TickOutcome::Disabled,
        observed_digest(observed) == s.last_digest ==> tick_outcome(s, observed)
            != TickOutcome::Captured,
{
}

/// No feedback through the loop: after a replayed record was written to the
/// clipboard, the tick that reads the same bytes back captures nothing.
pub proof fn law_tick_after_replay(s: StateView, observed: Observation)
    requires
        s.replays() is Some,
        s.replays().unwrap().wf(),
        observed matches Observation::Content { format, raw, text } && raw@
            == s.replays().unwrap().raw,
    ensures
        tick_outcome(s.after_paste().after_written(s.replays().unwrap()), observed)
            != TickOutcome::Captured,
{
}

} // verus!
