//! The session bridge and its two relay loops. The bridge attaches to (or
//! bootstraps) a conversation, forwards one synthetic session-configured
//! notification before anything else, and then keeps two independent streams
//! flowing: queued operations towards the engine, in queue order, and engine
//! notifications towards the sink, in engine order.

use vstd::prelude::*;

use crate::protocol::Event;
use crate::protocol::EventMsg;
use crate::protocol::Op;
use crate::protocol::SessionConfiguredEvent;

verus! {

/// True of the synthetic notification the bridge forwards first: its id is
/// the empty placeholder (correlation is irrelevant for it) and its payload
/// is the session-configured value, verbatim.
pub open spec fn is_initial_session_event(ev: Event, session_configured: SessionConfiguredEvent) -> bool {
    &&& ev.id@ == Seq::<char>::empty()
    &&& ev.msg == EventMsg::SessionConfigured(session_configured)
}

/// Synthesizes the one session-configured notification the bridge forwards
/// before any notification pulled from the live stream.
pub fn initial_session_event(session_configured: SessionConfiguredEvent) -> (ev: Event)
    ensures
        is_initial_session_event(ev, session_configured),
{
    Event { id: String::new(), msg: EventMsg::SessionConfigured(session_configured) }
}

/// What the bridge does once bootstrapping a new conversation has resolved:
/// start the relays with the configured session, or stop forwarding entirely.
#[derive(Debug, Clone, PartialEq, Eq)]
pub enum BridgeStartup {
    Stop,
    Start { session_configured: SessionConfiguredEvent },
}

/// Decides the bridge's continuation from the bootstrap outcome: a configured
/// session starts both relays with its payload verbatim; a failed bootstrap
/// stops the bridge, and no forwarding ever happens for that session.
pub fn bridge_startup_step(bootstrap: Result<SessionConfiguredEvent, String>) -> (step:
    BridgeStartup)
    ensures
        bootstrap matches Ok(session_configured) ==> step == (BridgeStartup::Start {
            session_configured,
        }),
        bootstrap is Err ==> step == BridgeStartup::Stop,
{
    match bootstrap {
        Ok(session_configured) => BridgeStartup::Start { session_configured },
        Err(_) => BridgeStartup::Stop,
    }
}

/// What the operation relay does with one receive from the queue: submit the
/// received operation, or exit because the queue closed.
#[derive(Debug, Clone, PartialEq, Eq)]
pub enum OpRelayStep {
    Submit { op: Op },
    Exit,
}

/// Decides one step of the operation relay. A received operation is submitted
/// verbatim; a closed queue (every producer handle dropped) is the relay's
/// sole termination signal, and it exits without submitting anything further.
pub fn op_relay_step(received: Option<Op>) -> (step: OpRelayStep)
    ensures
        received matches Some(op) ==> step == (OpRelayStep::Submit { op }),
        received is None ==> step == OpRelayStep::Exit,
{
    match received {
        Some(op) => OpRelayStep::Submit { op },
        None => OpRelayStep::Exit,
    }
}

/// What the event relay does with one pull from the engine: forward the
/// notification, or exit because the stream closed or errored.
#[derive(Debug, Clone, PartialEq, Eq)]
pub enum EventRelayStep {
    Forward { event: Event },
    Exit,
}

/// Decides one step of the event relay. A pulled notification is forwarded to
/// the sink verbatim; stream closure or an unrecoverable read error ends the
/// relay, with no restart.
pub fn event_relay_step(pulled: Result<Event, String>) -> (step: EventRelayStep)
    ensures
        pulled matches Ok(event) ==> step == (EventRelayStep::Forward { event }),
        pulled is Err ==> step == EventRelayStep::Exit,
{
    match pulled {
        Ok(event) => EventRelayStep::Forward { event },
        Err(_) => EventRelayStep::Exit,
    }
}

/// Order law of the operation relay: the operations enqueued through one
/// producer handle are submitted to the engine exactly once each, in the
/// order they were enqueued, and nothing is submitted after the last of them.
pub fn op_submission_order(queued: Vec<Op>) -> (submitted: Vec<Op>)
    ensures
        submitted@ == queued@,
{
    let ghost all = queued@;
    let mut rest = queued;
    let mut submitted: Vec<Op> = Vec::new();
    while rest.len() > 0
        invariant
            submitted@ + rest@ == all,
        decreases rest.len(),
    {
        let op = rest.remove(0);
        submitted.push(op);
        proof {
            assert(submitted@ + rest@ =~= all);
        }
    }
    proof {
        assert(submitted@ =~= all);
    }
    submitted
}

/// Order law of the event relay: the sink receives the synthetic
/// session-configured notification first, then every engine notification,
/// verbatim and in engine order, however many were already buffered when the
/// bridge started.
pub fn forward_events(session_configured: SessionConfiguredEvent, engine_events: Vec<Event>) -> (sink:
    Vec<Event>)
    ensures
        sink@.len() == engine_events@.len() + 1,
        is_initial_session_event(sink@[0], session_configured),
        forall|i: int| 0 <= i < engine_events@.len() ==> sink@[i + 1] == engine_events@[i],
{
    let ghost all = engine_events@;
    let ghost sc = session_configured;
    let mut sink: Vec<Event> = Vec::new();
    let first = initial_session_event(session_configured);
    sink.push(first);
    let mut rest = engine_events;
    while rest.len() > 0
        invariant
            sink@.len() + rest@.len() == all.len() + 1,
            1 <= sink@.len(),
            is_initial_session_event(sink@[0], sc),
            forall|i: int| 1 <= i < sink@.len() ==> sink@[i] == all[i - 1],
            forall|i: int| 0 <= i < rest@.len() ==> rest@[i] == all[sink@.len() - 1 + i],
        decreases rest.len(),
    {
        let ev = rest.remove(0);
        sink.push(ev);
    }
    sink
}

} // verus!
