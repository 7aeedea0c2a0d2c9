//! The relay of one job's results to the job's sender, as a state machine:
//! the code that owns the sender's connection reads the job's result stream,
//! performs each action and feeds back what happened.

use crate::model::PrintResponse;
use vstd::prelude::*;

verus! {

/// What happened since the relay last moved.
#[derive(Debug, Clone, Copy, PartialEq, Eq, Structural)]
pub enum RelayEvent {
    /// A result came on the job's result stream.
    Received(PrintResponse),
    /// The result stream ended: the negotiation for the job is over and
    /// every result was read.
    StreamEnded,
    /// The last result reached the sender.
    Forwarded,
    /// Passing the last result on failed: the sender went away.
    ForwardFailed,
}

/// What the relay does next.
#[derive(Debug, Clone, Copy, PartialEq, Eq, Structural)]
pub enum RelayAction {
    /// Pass this result on to the sender.
    Forward(PrintResponse),
    /// Wait for the next result on the stream.
    Receive,
    /// Put the result stream back in the registry under the job's id, so
    /// that a later connection resumes it, and stop.
    RestoreAndStop,
    /// Stop: the job is over.
    Stop,
}

/// The relay's answer to `event`.
pub open spec fn relay_next(event: RelayEvent) -> RelayAction {
    match event {
        RelayEvent::Received(r) => RelayAction::Forward(r),
        RelayEvent::StreamEnded => RelayAction::Stop,
        RelayEvent::Forwarded => RelayAction::Receive,
        RelayEvent::ForwardFailed => RelayAction::RestoreAndStop,
    }
}

/// The relay's answer to `event`: each result received is passed on; once
/// passed on, the next is awaited; a sender that went away has the stream
/// put back; an ended stream ends the relay.
pub fn relay_step(event: RelayEvent) -> (r: RelayAction)
    ensures
        r == relay_next(event),
{
    match event {
        RelayEvent::Received(r) => RelayAction::Forward(r),
        RelayEvent::StreamEnded => RelayAction::Stop,
        RelayEvent::Forwarded => RelayAction::Receive,
        RelayEvent::ForwardFailed => RelayAction::RestoreAndStop,
    }
}

/// The results a relay passes on, in order, when the stream delivers
/// `results` and then ends, and every one reaches the sender.
pub open spec fn relayed(results: Seq<PrintResponse>) -> Seq<PrintResponse>
    decreases results.len(),
{
    if results.len() == 0 {
        Seq::empty()
    } else {
        match relay_next(RelayEvent::Received(results[0])) {
            RelayAction::Forward(r) => seq![r].add(relayed(results.drop_first())),
            _ => relayed(results.drop_first()),
        }
    }
}

/// A relay whose sender stays connected passes on exactly the results of the
/// stream, in the order they came.
pub proof fn lemma_relay_keeps_order(results: Seq<PrintResponse>)
    ensures
        relayed(results) == results,
    decreases results.len(),
{
    if results.len() > 0 {
        lemma_relay_keeps_order(results.drop_first());
        assert(seq![results[0]].add(results.drop_first()) =~= results);
    }
}

} // verus!
