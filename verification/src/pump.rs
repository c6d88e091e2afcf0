//! The byte-pump shutdown protocol.
//!
//! A pump worker relays bytes one blocking zero-copy transfer at a time.
//! At the top of each iteration it reads the shared shutdown flag and
//! exits if the flag is set; otherwise it performs one transfer and
//! reacts to the outcome with `pump_react`: transfers that moved bytes
//! and transient resource-unavailable conditions keep the pump going, any
//! other failure makes it set the shared flag and exit. The worker that
//! runs the transfers owns the loop; this module owns the decision and
//! its consequences over whole outcome traces.

use vstd::prelude::*;

verus! {

/// The chunk size of one zero-copy transfer, in bytes.
pub const SPLICE_CHUNK: usize = 1024;

/// What one blocking transfer came back with.
#[derive(Debug, Clone, Copy, PartialEq, Eq)]
pub enum SpliceOutcome {
    /// The transfer moved this many bytes (possibly none, at end of input).
    Moved(usize),
    /// The resource was transiently unavailable; not an error.
    NotReady,
    /// A pipe end is broken, or any other OS error.
    Broken,
}

/// What the pump does after one transfer.
#[derive(Debug, Clone, Copy, PartialEq, Eq)]
pub enum PumpVerdict {
    /// Keep relaying.
    Proceed,
    /// Set the shared shutdown flag and exit the loop.
    Abort,
}

/// Whether an outcome terminates the pump.
pub open spec fn pump_stops_on(o: SpliceOutcome) -> bool {
    o is Broken
}

/// Decide the pump's reaction to one transfer outcome: proceed on moved
/// bytes and on transient unavailability, abort (setting the shared
/// shutdown flag) on a broken pipe end or any other OS error.
pub fn pump_react(o: &SpliceOutcome) -> (v: PumpVerdict)
    ensures
        (v is Abort) == pump_stops_on(*o),
{
    match o {
        SpliceOutcome::Moved(_) => PumpVerdict::Proceed,
        SpliceOutcome::NotReady => PumpVerdict::Proceed,
        SpliceOutcome::Broken => PumpVerdict::Abort,
    }
}

/// The number of transfers a pump performs when it starts with the
/// shutdown flag clear, no other worker sets the flag meanwhile, and the
/// kernel would answer its transfers with `outcomes`, one per iteration:
/// it keeps transferring until the first outcome it aborts on, inclusive,
/// and runs through all of `outcomes` if it aborts on none.
pub open spec fn pump_transfers(outcomes: Seq<SpliceOutcome>) -> int
    decreases outcomes.len(),
{
    if outcomes.len() == 0 {
        0
    } else if pump_stops_on(outcomes[0]) {
        1
    } else {
        1 + pump_transfers(outcomes.drop_first())
    }
}

/// Whether a pump handed `outcomes` exits by itself, setting the shared
/// shutdown flag as it goes.
pub open spec fn pump_sets_flag(outcomes: Seq<SpliceOutcome>) -> bool
    decreases outcomes.len(),
{
    if outcomes.len() == 0 {
        false
    } else if pump_stops_on(outcomes[0]) {
        true
    } else {
        pump_sets_flag(outcomes.drop_first())
    }
}

/// Shutdown propagates within a bounded number of pump iterations: when
/// the far end breaks at position `i` of the outcome trace (the first
/// breaking outcome), the pump performs exactly `i + 1` transfers, then
/// sets the shared shutdown flag and exits. Every worker polling that
/// flag, and the waiter blocked on the completion signal sent on exit,
/// therefore observes termination after at most one in-flight transfer
/// per worker.
pub proof fn lemma_shutdown_propagates(outcomes: Seq<SpliceOutcome>, i: int)
    requires
        0 <= i < outcomes.len(),
        pump_stops_on(outcomes[i]),
        forall|j: int| 0 <= j < i ==> !pump_stops_on(#[trigger] outcomes[j]),
    ensures
        pump_transfers(outcomes) == i + 1,
        pump_sets_flag(outcomes),
    decreases i,
{
    if i > 0 {
        lemma_shutdown_propagates(outcomes.drop_first(), i - 1);
    }
}

/// A pump whose outcomes never break runs through its whole trace without
/// setting the shutdown flag: transient unavailability and short transfers
/// are absorbed, never surfaced.
pub proof fn lemma_pump_absorbs_transients(outcomes: Seq<SpliceOutcome>)
    requires
        forall|j: int| 0 <= j < outcomes.len() ==> !pump_stops_on(#[trigger] outcomes[j]),
    ensures
        pump_transfers(outcomes) == outcomes.len(),
        !pump_sets_flag(outcomes),
    decreases outcomes.len(),
{
    if outcomes.len() > 0 {
        lemma_pump_absorbs_transients(outcomes.drop_first());
    }
}

} // verus!
