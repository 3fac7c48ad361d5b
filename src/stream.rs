//! The streamed request source: the producer that feeds parsed lines to the
//! hand-off queue, and the workers that take requests from it.
use vstd::prelude::*;
use crate::request::JsonRequest;

verus! {

/// What the producer does with one parsed input line.
pub enum ProducerAction {
    /// Stop reading input.
    Halt,
    /// Hand the request to the workers.
    Forward(JsonRequest),
    /// Report the message to the operator and go on with the next line.
    Report(String),
}

/// The producer's step for a line that parsed to `parsed` (a request, or the
/// parser's error text), with `stop` the shutdown flag.
pub fn producer_step(stop: bool, parsed: Result<JsonRequest, String>) -> (r: ProducerAction)
    ensures
        stop ==> r is Halt,
        !stop && parsed is Ok ==> r == ProducerAction::Forward(parsed->Ok_0),
        !stop && parsed is Err ==> r is Report
            && r->Report_0@ == "Error parsing JSON RPC request: "@ + parsed->Err_0@,
{
    if stop {
        return ProducerAction::Halt;
    }
    match parsed {
        Ok(request) => ProducerAction::Forward(request),
        Err(e) => {
            let mut m = String::from_str("Error parsing JSON RPC request: ");
            m.append(e.as_str());
            ProducerAction::Report(m)
        },
    }
}

/// What a bounded wait on the hand-off queue gave.
pub enum Received {
    Item(JsonRequest),
    /// The wait ended with the queue still empty.
    Nothing,
    /// The producer is gone and the queue is drained.
    Closed,
}

/// What a streaming worker does next.
pub enum Next {
    Dispatch(JsonRequest),
    Wait,
    Stop,
}

/// A streaming worker's step after a wait: it stops on shutdown or when the
/// stream is exhausted, dispatches what it received, and otherwise waits again.
pub fn consumer_step(shutdown: bool, received: Received) -> (r: Next)
    ensures
        shutdown ==> r is Stop,
        !shutdown ==> match received {
            Received::Item(q) => r == Next::Dispatch(q),
            Received::Nothing => r is Wait,
            Received::Closed => r is Stop,
        },
{
    if shutdown {
        return Next::Stop;
    }
    match received {
        Received::Item(q) => Next::Dispatch(q),
        Received::Nothing => Next::Wait,
        Received::Closed => Next::Stop,
    }
}

} // verus!
