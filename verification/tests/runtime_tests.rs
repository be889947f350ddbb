use trigger_mqtt::config::{MqttTrigger, RouteEntry};
use trigger_mqtt::dispatch::classify_dispatch;
use trigger_mqtt::errors::{DispatchError, TriggerError};
use trigger_mqtt::lifecycle::{controller_result, run_test_mode, test_dispatches, test_payload};
use trigger_mqtt::listener::{ListenerAction, ListenerEvent, ListenerPhase, ListenerTask};

fn route(component: &str, topic: &str, qos: i32) -> RouteEntry {
    RouteEntry {
        component_id: component.to_string(),
        qos,
        topic: topic.to_string(),
    }
}

fn resolved_trigger(routes: Vec<RouteEntry>) -> MqttTrigger {
    MqttTrigger {
        address: "tcp://localhost:1883".to_string(),
        username: "user".to_string(),
        password: "pass".to_string(),
        keep_alive_interval: 30,
        component_configs: routes,
    }
}

fn consuming_task() -> ListenerTask {
    let mut task = ListenerTask::new(
        "tcp://localhost:1883".to_string(),
        route("echo", "sensors/+/temp", 1),
    );
    assert!(matches!(task.initial_action(), ListenerAction::Connect));
    let a = task.step(ListenerEvent::ConnectSucceeded);
    assert!(matches!(a, ListenerAction::Subscribe));
    let a = task.step(ListenerEvent::SubscribeSucceeded);
    assert!(matches!(a, ListenerAction::PollNext));
    assert_eq!(task.phase, ListenerPhase::Consuming);
    task
}

#[test]
fn listener_reaches_consuming_through_connect_and_subscribe() {
    let task = consuming_task();
    assert_eq!(task.phase, ListenerPhase::Consuming);
}

#[test]
fn connect_failure_closes_the_task_with_the_address() {
    let mut task = ListenerTask::new(
        "tcp://unreachable:1883".to_string(),
        route("echo", "t", 0),
    );
    let a = task.step(ListenerEvent::ConnectFailed);
    match a {
        ListenerAction::Exit(TriggerError::Connection { address }) => {
            assert_eq!(address, "tcp://unreachable:1883")
        },
        other => panic!("expected a connection error exit, got {:?}", other),
    }
    assert_eq!(task.phase, ListenerPhase::Closed);
}

#[test]
fn subscribe_failure_closes_the_task_with_the_topic() {
    let mut task = ListenerTask::new("tcp://localhost:1883".to_string(), route("echo", "bad/#/t", 0));
    task.step(ListenerEvent::ConnectSucceeded);
    let a = task.step(ListenerEvent::SubscribeFailed);
    match a {
        ListenerAction::Exit(TriggerError::Subscription { topic }) => assert_eq!(topic, "bad/#/t"),
        other => panic!("expected a subscription error exit, got {:?}", other),
    }
    assert_eq!(task.phase, ListenerPhase::Closed);
}

#[test]
fn a_failed_dispatch_does_not_stop_consumption() {
    // A stream yielding [good, bad, good]: the failed middle dispatch must
    // not keep the task from attempting the third message.
    let mut task = consuming_task();

    let a = task.step(ListenerEvent::MessageReceived(b"good-1".to_vec()));
    assert!(matches!(a, ListenerAction::Dispatch(p) if p == b"good-1".to_vec()));
    let a = task.step(ListenerEvent::DispatchCompleted(Ok(())));
    assert!(matches!(a, ListenerAction::PollNext));

    let a = task.step(ListenerEvent::MessageReceived(b"bad".to_vec()));
    assert!(matches!(a, ListenerAction::Dispatch(p) if p == b"bad".to_vec()));
    let a = task.step(ListenerEvent::DispatchCompleted(Err(DispatchError::Handler {
        message: "malformed payload".to_string(),
    })));
    assert!(matches!(a, ListenerAction::PollNext));
    assert_eq!(task.phase, ListenerPhase::Consuming);

    let a = task.step(ListenerEvent::MessageReceived(b"good-2".to_vec()));
    assert!(matches!(a, ListenerAction::Dispatch(p) if p == b"good-2".to_vec()));
}

#[test]
fn empty_polls_keep_the_loop_running() {
    let mut task = consuming_task();
    let a = task.step(ListenerEvent::EmptyPoll);
    assert!(matches!(a, ListenerAction::PollNext));
    assert_eq!(task.phase, ListenerPhase::Consuming);
}

#[test]
fn a_closed_stream_terminates_the_task_as_an_error() {
    let mut task = consuming_task();
    let a = task.step(ListenerEvent::StreamClosed);
    assert!(matches!(a, ListenerAction::Exit(TriggerError::StreamClosed)));
    assert_eq!(task.phase, ListenerPhase::Closed);
}

#[test]
fn dispatch_outcomes_classify_into_the_two_error_kinds() {
    assert!(classify_dispatch(Ok(Ok(()))).is_ok());
    match classify_dispatch(Err("unknown component".to_string())) {
        Err(DispatchError::Instance { message }) => assert_eq!(message, "unknown component"),
        other => panic!("expected an instance error, got {:?}", other),
    }
    match classify_dispatch(Ok(Err("guest failed".to_string()))) {
        Err(DispatchError::Handler { message }) => assert_eq!(message, "guest failed"),
        other => panic!("expected a handler error, got {:?}", other),
    }
}

#[test]
fn the_synthetic_payload_is_the_test_message() {
    assert_eq!(test_payload(), b"test message".to_vec());
}

#[test]
fn test_mode_plans_one_dispatch_per_route_in_order() {
    let t = resolved_trigger(vec![
        route("alpha", "a/#", 0),
        route("beta", "b/#", 1),
        route("gamma", "c/#", 2),
    ]);
    let plan = test_dispatches(&t);
    assert_eq!(plan.len(), 3);
    assert_eq!(plan[0].component_id, "alpha");
    assert_eq!(plan[1].component_id, "beta");
    assert_eq!(plan[2].component_id, "gamma");
    for d in &plan {
        assert_eq!(d.payload, b"test message".to_vec());
    }
}

#[test]
fn test_mode_stops_at_the_first_failed_dispatch() {
    let t = resolved_trigger(vec![
        route("alpha", "a/#", 0),
        route("beta", "b/#", 1),
        route("gamma", "c/#", 2),
    ]);
    let outcomes = vec![
        Ok(()),
        Err(DispatchError::Instance { message: "unknown component".to_string() }),
        Ok(()),
    ];
    let (attempted, first_failure) = run_test_mode(&t, &outcomes);
    assert_eq!(attempted, 2);
    assert_eq!(first_failure, Some(1));
}

#[test]
fn test_mode_runs_every_route_when_all_dispatches_succeed() {
    let t = resolved_trigger(vec![route("alpha", "a/#", 0), route("beta", "b/#", 1)]);
    let (attempted, first_failure) = run_test_mode(&t, &vec![Ok(()), Ok(())]);
    assert_eq!(attempted, 2);
    assert_eq!(first_failure, None);
}

#[test]
fn the_first_exit_determines_the_controller_result() {
    // Task A's stream closes after one message; task B never finishes and
    // so never contributes an exit. The controller's result is A's.
    let exits: Vec<Result<(), TriggerError>> = vec![Err(TriggerError::StreamClosed)];
    assert!(matches!(controller_result(exits), Err(TriggerError::StreamClosed)));

    let exits: Vec<Result<(), TriggerError>> = vec![
        Ok(()),
        Err(TriggerError::Connection { address: "tcp://localhost:1883".to_string() }),
    ];
    assert!(matches!(controller_result(exits), Ok(())));
}

#[test]
fn one_route_end_to_end_in_test_mode() {
    // One route (component "echo", topic "sensors/+/temp", qos 1): test
    // mode plans exactly one dispatch of b"test message" to "echo", and a
    // successful sandbox run completes the mode cleanly.
    let t = resolved_trigger(vec![route("echo", "sensors/+/temp", 1)]);
    let plan = test_dispatches(&t);
    assert_eq!(plan.len(), 1);
    assert_eq!(plan[0].component_id, "echo");
    assert_eq!(plan[0].payload, b"test message".to_vec());
    let (attempted, first_failure) = run_test_mode(&t, &vec![Ok(())]);
    assert_eq!(attempted, 1);
    assert_eq!(first_failure, None);
}
