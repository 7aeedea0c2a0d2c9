//! The negotiation run with one connected terminal, as a state machine: the
//! code that owns the connection performs what each state asks for (pull a
//! job, send it, read a reply) and feeds back what happened.

use crate::model::{text_is, PrintResponse};
use crate::outside::{json_u64_member, json_u64_member_of};
use vstd::prelude::*;

verus! {

/// The literal text a terminal sends to confirm that a job was printed.
pub const PRINTED_TOKEN: &'static str = "Printed";

/// The member of a terminal's price reply that holds the price.
pub const COST_KEY: &'static str = "cost";

/// The price in a terminal's reply, if the reply is a JSON object whose
/// `cost` member is an unsigned integer.
pub open spec fn reply_cost(s: Seq<char>) -> Option<u64> {
    json_u64_member_of(s, COST_KEY@)
}

/// Where a terminal's session stands.
#[derive(Debug, Clone, Copy, PartialEq, Eq, Structural)]
pub enum SessionState {
    /// Waiting for the next job on the shop's queue.
    AwaitJob,
    /// A job was taken from the queue and is being sent to the terminal.
    SentJob,
    /// Waiting for the terminal's price for the job.
    AwaitCost,
    /// Waiting for the terminal to confirm that the job was printed.
    AwaitPrinted,
    /// The session is over: no further job is pulled.
    Closed,
}

/// A message read from the terminal, or the lack of one.
#[derive(Debug, Clone)]
pub enum PeerMessage {
    /// A text message.
    Text(String),
    /// A message that is not text, or a failed read.
    Other,
    /// The connection ended.
    Absent,
}

/// What happened since the session last moved.
#[derive(Debug, Clone)]
pub enum SessionEvent {
    /// A job was taken from the shop's queue.
    JobArrived,
    /// The shop's queue is closed: its sender is gone.
    QueueClosed,
    /// The job was sent to the terminal.
    JobDelivered,
    /// Sending the job to the terminal failed.
    DeliveryFailed,
    /// The terminal answered.
    Reply(PeerMessage),
}

/// The state a session moves to, and the result, if any, to pass to the
/// current job's sender on the way.
#[derive(Debug, Clone, Copy, PartialEq, Eq, Structural)]
pub struct SessionStep {
    pub state: SessionState,
    pub forward: Option<PrintResponse>,
}

/// Moving to `state` with nothing to pass on.
pub open spec fn quiet(state: SessionState) -> SessionStep {
    SessionStep { state, forward: None }
}

/// How a session waiting for a price goes on, given the price read from the
/// terminal's reply, if one could be read.
pub open spec fn after_cost(parsed: Option<u64>) -> SessionStep {
    match parsed {
        Some(n) => if n <= usize::MAX {
            SessionStep {
                state: SessionState::AwaitPrinted,
                forward: Some(PrintResponse::Cost(n as usize)),
            }
        } else {
            quiet(SessionState::Closed)
        },
        None => quiet(SessionState::Closed),
    }
}

/// How a session waiting for the confirmation goes on, given the reply.
pub open spec fn after_confirmation(m: PeerMessage) -> SessionStep {
    match m {
        PeerMessage::Text(t) => if t@ == PRINTED_TOKEN@ {
            SessionStep { state: SessionState::AwaitJob, forward: Some(PrintResponse::Printed) }
        } else {
            quiet(SessionState::AwaitJob)
        },
        _ => quiet(SessionState::AwaitJob),
    }
}

/// The session's move from `state` on `event`.
pub open spec fn next(state: SessionState, event: SessionEvent) -> SessionStep {
    match state {
        SessionState::AwaitJob => match event {
            SessionEvent::JobArrived => quiet(SessionState::SentJob),
            _ => quiet(SessionState::Closed),
        },
        SessionState::SentJob => match event {
            SessionEvent::JobDelivered => quiet(SessionState::AwaitCost),
            _ => quiet(SessionState::Closed),
        },
        SessionState::AwaitCost => match event {
            SessionEvent::Reply(PeerMessage::Text(t)) => after_cost(reply_cost(t@)),
            _ => quiet(SessionState::Closed),
        },
        SessionState::AwaitPrinted => match event {
            SessionEvent::Reply(m) => after_confirmation(m),
            _ => quiet(SessionState::Closed),
        },
        SessionState::Closed => quiet(SessionState::Closed),
    }
}

/// Where a session ends after `events` from `state`, and the results it
/// passes on, in order.
pub open spec fn run(state: SessionState, events: Seq<SessionEvent>) -> (SessionState, Seq<
    PrintResponse,
>)
    decreases events.len(),
{
    if events.len() == 0 {
        (state, Seq::empty())
    } else {
        let s = next(state, events[0]);
        let rest = run(s.state, events.subrange(1, events.len() as int));
        let out = match s.forward {
            Some(r) => seq![r].add(rest.1),
            None => rest.1,
        };
        (rest.0, out)
    }
}

/// The move of a session waiting for a price, given the price read from the
/// terminal's reply: a price is passed on as `Cost` and the session waits
/// for the confirmation; a reply with no price ends the session.
pub fn cost_step(parsed: Option<u64>) -> (r: SessionStep)
    ensures
        r == after_cost(parsed),
{
    match parsed {
        Some(n) => if n <= usize::MAX as u64 {
            SessionStep {
                state: SessionState::AwaitPrinted,
                forward: Some(PrintResponse::Cost(n as usize)),
            }
        } else {
            SessionStep { state: SessionState::Closed, forward: None }
        },
        None => SessionStep { state: SessionState::Closed, forward: None },
    }
}

/// The move of a session waiting for the confirmation: the literal
/// `Printed` is passed on; any other reply, or none, ends this job quietly.
/// Either way the session goes back to waiting for a job.
pub fn confirmation_step(m: &PeerMessage) -> (r: SessionStep)
    ensures
        r == after_confirmation(*m),
{
    match m {
        PeerMessage::Text(t) => if text_is(t.as_str(), PRINTED_TOKEN) {
            SessionStep { state: SessionState::AwaitJob, forward: Some(PrintResponse::Printed) }
        } else {
            SessionStep { state: SessionState::AwaitJob, forward: None }
        },
        _ => SessionStep { state: SessionState::AwaitJob, forward: None },
    }
}

/// The session's move from `state` on `event`.
pub fn step(state: SessionState, event: &SessionEvent) -> (r: SessionStep)
    ensures
        r == next(state, *event),
{
    match state {
        SessionState::AwaitJob => match event {
            SessionEvent::JobArrived => SessionStep { state: SessionState::SentJob, forward: None },
            _ => SessionStep { state: SessionState::Closed, forward: None },
        },
        SessionState::SentJob => match event {
            SessionEvent::JobDelivered => SessionStep {
                state: SessionState::AwaitCost,
                forward: None,
            },
            _ => SessionStep { state: SessionState::Closed, forward: None },
        },
        SessionState::AwaitCost => match event {
            SessionEvent::Reply(PeerMessage::Text(t)) => cost_step(json_u64_member(t.as_str(), COST_KEY)),
            _ => SessionStep { state: SessionState::Closed, forward: None },
        },
        SessionState::AwaitPrinted => match event {
            SessionEvent::Reply(m) => confirmation_step(m),
            _ => SessionStep { state: SessionState::Closed, forward: None },
        },
        SessionState::Closed => SessionStep { state: SessionState::Closed, forward: None },
    }
}

/// A job whose terminal quotes price `n` and then confirms with `Printed`
/// gives its sender exactly `Cost(n)` and then `Printed`, and the session
/// goes back to waiting for the next job.
pub proof fn lemma_quote_then_printed(cost_text: String, confirmation: String, n: u64)
    requires
        reply_cost(cost_text@) == Some(n),
        n <= usize::MAX,
        confirmation@ == PRINTED_TOKEN@,
    ensures
        run(
            SessionState::AwaitJob,
            seq![
                SessionEvent::JobArrived,
                SessionEvent::JobDelivered,
                SessionEvent::Reply(PeerMessage::Text(cost_text)),
                SessionEvent::Reply(PeerMessage::Text(confirmation)),
            ],
        ) == (SessionState::AwaitJob, seq![PrintResponse::Cost(n as usize), PrintResponse::Printed]),
{
    reveal_with_fuel(run, 5);
    let evs = seq![
        SessionEvent::JobArrived,
        SessionEvent::JobDelivered,
        SessionEvent::Reply(PeerMessage::Text(cost_text)),
        SessionEvent::Reply(PeerMessage::Text(confirmation)),
    ];
    assert(evs.subrange(1, 4) =~= evs.drop_first());
    assert(evs.subrange(1, 4).subrange(1, 3) =~= seq![evs[2], evs[3]]);
    assert(seq![evs[2], evs[3]].subrange(1, 2) =~= seq![evs[3]]);
    assert(seq![evs[3]].subrange(1, 1) =~= Seq::<SessionEvent>::empty());
    assert(seq![PrintResponse::Printed].add(Seq::empty()) =~= seq![PrintResponse::Printed]);
    assert(seq![PrintResponse::Cost(n as usize)].add(seq![PrintResponse::Printed]) =~= seq![
        PrintResponse::Cost(n as usize),
        PrintResponse::Printed,
    ]);
}

/// Whether a session in `state` still holds a job, and with it the job's
/// result sender; once it holds none, that sender is dropped and the job's
/// result stream ends.
pub open spec fn holds_job(state: SessionState) -> bool {
    state == SessionState::SentJob || state == SessionState::AwaitCost || state
        == SessionState::AwaitPrinted
}

/// A job whose terminal quotes price `n` and then does anything but confirm
/// with `Printed` (another message, a message that is not text, or nothing)
/// gives its sender exactly `Cost(n)`, never `Printed`, and the session lets
/// go of the job, ending its result stream.
pub proof fn lemma_quote_without_confirmation(cost_text: String, reply: SessionEvent, n: u64)
    requires
        reply_cost(cost_text@) == Some(n),
        n <= usize::MAX,
        !(reply matches SessionEvent::Reply(PeerMessage::Text(t)) && t@ == PRINTED_TOKEN@),
    ensures
        ({
            let (end, out) = run(
                SessionState::AwaitJob,
                seq![
                    SessionEvent::JobArrived,
                    SessionEvent::JobDelivered,
                    SessionEvent::Reply(PeerMessage::Text(cost_text)),
                    reply,
                ],
            );
            out == seq![PrintResponse::Cost(n as usize)] && !out.contains(PrintResponse::Printed)
                && !holds_job(end)
        }),
{
    reveal_with_fuel(run, 5);
    let evs = seq![
        SessionEvent::JobArrived,
        SessionEvent::JobDelivered,
        SessionEvent::Reply(PeerMessage::Text(cost_text)),
        reply,
    ];
    assert(evs.subrange(1, 4) =~= evs.drop_first());
    assert(evs.subrange(1, 4).subrange(1, 3) =~= seq![evs[2], evs[3]]);
    assert(seq![evs[2], evs[3]].subrange(1, 2) =~= seq![evs[3]]);
    assert(seq![evs[3]].subrange(1, 1) =~= Seq::<SessionEvent>::empty());
    let out = seq![PrintResponse::Cost(n as usize)];
    assert(out.add(Seq::empty()) =~= out);
    assert(!out.contains(PrintResponse::Printed)) by {
        if out.contains(PrintResponse::Printed) {
            let k = choose|k: int| 0 <= k < out.len() && out[k] == PrintResponse::Printed;
            assert(out[k] == PrintResponse::Cost(n as usize));
        }
    }
}

/// Whatever a terminal answers once its job is delivered, the job's sender
/// gets at most one `Cost` and at most one `Printed`, the `Cost` first.
pub proof fn lemma_cost_before_printed(first: SessionEvent, second: SessionEvent)
    ensures
        ({
            let out = run(SessionState::AwaitCost, seq![first, second]).1;
            out.len() <= 2 && (out.len() >= 1 ==> out[0] is Cost) && (out.len() == 2 ==> out[1]
                == PrintResponse::Printed)
        }),
{
    reveal_with_fuel(run, 3);
    let evs = seq![first, second];
    assert(evs.subrange(1, 2) =~= seq![second]);
    assert(seq![second].subrange(1, 1) =~= Seq::<SessionEvent>::empty());
    let s1 = next(SessionState::AwaitCost, first);
    let s2 = next(s1.state, second);
    let tail = run(s1.state, seq![second]).1;
    if s1.state == SessionState::AwaitPrinted {
        match s2.forward {
            Some(r) => assert(tail =~= seq![r].add(Seq::empty())),
            None => assert(tail =~= Seq::<PrintResponse>::empty()),
        }
    } else {
        assert(s1.state == SessionState::Closed);
        assert(tail =~= Seq::<PrintResponse>::empty());
    }
}

} // verus!
