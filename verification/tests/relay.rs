use cortex_bridge::agent::bridge_startup_step;
use cortex_bridge::agent::event_relay_step;
use cortex_bridge::agent::forward_events;
use cortex_bridge::agent::initial_session_event;
use cortex_bridge::agent::op_relay_step;
use cortex_bridge::agent::op_submission_order;
use cortex_bridge::agent::BridgeStartup;
use cortex_bridge::agent::EventRelayStep;
use cortex_bridge::agent::OpRelayStep;
use cortex_bridge::protocol::Event;
use cortex_bridge::protocol::EventMsg;
use cortex_bridge::protocol::Op;
use cortex_bridge::protocol::SessionConfiguredEvent;

fn configured() -> SessionConfiguredEvent {
    SessionConfiguredEvent { session_id: "s1".to_string(), model: "m1".to_string() }
}

#[test]
fn ops_are_submitted_in_queue_order() {
    let op1 = Op::UserInput { text: "op1".to_string() };
    let op2 = Op::Interrupt;
    let op3 = Op::UserInput { text: "op3".to_string() };
    let queued = vec![op1.clone(), op2.clone(), op3.clone()];
    let submitted = op_submission_order(queued);
    assert_eq!(submitted, vec![op1, op2, op3]);
}

#[test]
fn closed_queue_exits_op_relay_and_submits_nothing() {
    assert_eq!(op_relay_step(None), OpRelayStep::Exit);
    let submitted = op_submission_order(Vec::new());
    assert!(submitted.is_empty());
}

#[test]
fn received_op_is_submitted_verbatim() {
    let op = Op::UserInput { text: "hello".to_string() };
    assert_eq!(op_relay_step(Some(op.clone())), OpRelayStep::Submit { op });
}

#[test]
fn session_configured_is_forwarded_first_then_events_in_order() {
    let e1 = Event { id: "1".to_string(), msg: EventMsg::AgentMessage { message: "hi".to_string() } };
    let e2 = Event { id: "2".to_string(), msg: EventMsg::TaskComplete };
    let sink = forward_events(configured(), vec![e1.clone(), e2.clone()]);
    assert_eq!(sink.len(), 3);
    assert_eq!(sink[0].id, "");
    assert_eq!(sink[0].msg, EventMsg::SessionConfigured(configured()));
    assert_eq!(sink[1], e1);
    assert_eq!(sink[2], e2);
}

#[test]
fn buffered_events_never_precede_the_synthetic_notification() {
    let buffered: Vec<Event> = (0..16)
        .map(|i| Event { id: i.to_string(), msg: EventMsg::TaskComplete })
        .collect();
    let sink = forward_events(configured(), buffered);
    assert_eq!(sink[0].msg, EventMsg::SessionConfigured(configured()));
    assert_eq!(sink.len(), 17);
}

#[test]
fn event_stream_error_exits_event_relay() {
    assert_eq!(event_relay_step(Err("stream closed".to_string())), EventRelayStep::Exit);
}

#[test]
fn pulled_event_is_forwarded_verbatim() {
    let event = Event { id: "9".to_string(), msg: EventMsg::Error { message: "oops".to_string() } };
    assert_eq!(
        event_relay_step(Ok(event.clone())),
        EventRelayStep::Forward { event }
    );
}

#[test]
fn bootstrap_failure_stops_the_bridge() {
    assert_eq!(
        bridge_startup_step(Err("engine offline".to_string())),
        BridgeStartup::Stop
    );
}

#[test]
fn bootstrap_success_starts_with_the_configured_session() {
    assert_eq!(
        bridge_startup_step(Ok(configured())),
        BridgeStartup::Start { session_configured: configured() }
    );
}

#[test]
fn initial_session_event_uses_a_placeholder_id() {
    let ev = initial_session_event(configured());
    assert_eq!(ev.id, "");
    assert_eq!(ev.msg, EventMsg::SessionConfigured(configured()));
}
