//! Tests of the bus worker's decisions: echo fan-out, identity filtering,
//! broadcast retry, degraded startup, stop handling, and pacing.

use show_bus::connection::{
    after_first_write, after_retry_write, broadcast_words, collect_live, mismatch_warning,
    next_worker_action, plan_broadcast, plan_poll_pass, plan_result, remaining_delay, BusEffect,
    ChannelPoll, ConnectionUpdate, Identifier, InternalUpdate, LogUpdate, ReadResult,
    SystemConnection, WorkerAction, WriteFollowup, WriteOutcome,
};
use show_bus::item::ItemId;

fn echo(connection: usize, id: ItemId, data1: u32, data2: u32) -> BusEffect {
    BusEffect::Echo { connection, id, data1, data2 }
}

// Echo fan-out: three connections live, one produces an event; the other
// peers see the echo before the event handler sees the event.
#[test]
fn echo_fan_out() {
    let id = ItemId::new(42).unwrap();
    let identity = Identifier { id: Some(7) };
    let plan = plan_result(&ReadResult::Normal(id, 7, 0), 3, &identity);
    assert_eq!(4, plan.len());
    assert_eq!(echo(0, id, 7, 0), plan[0]);
    assert_eq!(echo(1, id, 7, 0), plan[1]);
    assert_eq!(echo(2, id, 7, 0), plan[2]);
    assert_eq!(
        BusEffect::Dispatch(InternalUpdate::ProcessEvent {
            event: id,
            check_scene: true,
            broadcast: false,
        }),
        plan[3]
    );

    // The same event with no identity configured dispatches as well
    let open = Identifier { id: None };
    let plan = plan_result(&ReadResult::Normal(id, 7, 0), 3, &open);
    assert_eq!(
        BusEffect::Dispatch(InternalUpdate::ProcessEvent {
            event: id,
            check_scene: true,
            broadcast: false,
        }),
        plan[3]
    );
}

// Identity filter: the echo still propagates, but the handler only sees a
// warning.
#[test]
fn identity_filter() {
    let id = ItemId::new(42).unwrap();
    let identity = Identifier { id: Some(7) };
    let plan = plan_result(&ReadResult::Normal(id, 9, 0), 3, &identity);
    assert_eq!(4, plan.len());
    assert_eq!(echo(0, id, 9, 0), plan[0]);
    assert_eq!(echo(1, id, 9, 0), plan[1]);
    assert_eq!(echo(2, id, 9, 0), plan[2]);
    assert_eq!(
        BusEffect::Dispatch(InternalUpdate::Update(LogUpdate::Warning(
            "Game Id Does Not Match. Event Ignored. (42)".to_string(),
            None,
        ))),
        plan[3]
    );
    match &plan[3] {
        BusEffect::Dispatch(InternalUpdate::Update(LogUpdate::Warning(text, ctx))) => {
            assert_eq!("Game Id Does Not Match. Event Ignored. (42)", text);
            assert!(ctx.is_none());
        }
        other => panic!("expected a warning dispatch, got {:?}", other),
    }
}

// Read and write errors are logged and nothing is dispatched for
// processing; the connection stays live.
#[test]
fn poll_errors_are_logged() {
    let identity = Identifier { id: None };
    let plan = plan_result(&ReadResult::WriteError("stalled".to_string()), 3, &identity);
    assert_eq!(1, plan.len());
    assert_eq!(
        BusEffect::Dispatch(InternalUpdate::Update(LogUpdate::Error(
            "Communication Write Error: stalled".to_string(),
            None,
        ))),
        plan[0]
    );
    let plan = plan_result(&ReadResult::ReadError("framing".to_string()), 3, &identity);
    assert_eq!(1, plan.len());
    assert_eq!(
        BusEffect::Dispatch(InternalUpdate::Update(LogUpdate::Error(
            "Communication Read Error: framing".to_string(),
            None,
        ))),
        plan[0]
    );
}

// A whole poll pass keeps the results in the order they were read: the
// first result's segment stands complete before the second one begins.
#[test]
fn poll_pass_keeps_result_order() {
    let first = ItemId::new(42).unwrap();
    let second = ItemId::new(43).unwrap();
    let identity = Identifier { id: None };
    let results = vec![
        ReadResult::Normal(first, 0, 0),
        ReadResult::ReadError("framing".to_string()),
        ReadResult::Normal(second, 1, 2),
    ];
    let pass = plan_poll_pass(&results, 2, &identity);
    assert_eq!(7, pass.len());
    assert_eq!(echo(0, first, 0, 0), pass[0]);
    assert_eq!(echo(1, first, 0, 0), pass[1]);
    assert!(matches!(
        pass[2],
        BusEffect::Dispatch(InternalUpdate::ProcessEvent { .. })
    ));
    assert!(matches!(
        pass[3],
        BusEffect::Dispatch(InternalUpdate::Update(LogUpdate::Error(..)))
    ));
    assert_eq!(echo(0, second, 1, 2), pass[4]);
    assert_eq!(echo(1, second, 1, 2), pass[5]);
    assert!(matches!(
        pass[6],
        BusEffect::Dispatch(InternalUpdate::ProcessEvent { .. })
    ));
}

#[test]
fn broadcast_word_rules() {
    assert_eq!((7, 3), broadcast_words(&Identifier { id: Some(7) }, Some(3)));
    assert_eq!((7, 0), broadcast_words(&Identifier { id: Some(7) }, None));
    assert_eq!((0, 3), broadcast_words(&Identifier { id: None }, Some(3)));
    assert_eq!((0, 0), broadcast_words(&Identifier { id: None }, None));
}

// Every live connection gets a first write with the identity and data
// words.
#[test]
fn broadcast_plan_covers_all() {
    let id = ItemId::new(99).unwrap();
    let identity = Identifier { id: None };
    let plan = plan_broadcast(id, Some(3), &identity, 3);
    assert_eq!(3, plan.len());
    for (connection, effect) in plan.iter().enumerate() {
        assert_eq!(
            &BusEffect::Write { connection, id, data1: 0, data2: 3 },
            effect
        );
    }
}

// Retry on write: the first failure is retried once after one polling
// interval; a successful retry means no error reaches the handler.
#[test]
fn retry_on_write() {
    let first = after_first_write(&WriteOutcome::Failed("bus contention".to_string()));
    assert_eq!(WriteFollowup::RetryAfterInterval, first);
    let second = after_retry_write(&WriteOutcome::Accepted);
    assert!(second.is_none());

    // A connection whose first write succeeds sees no retry at all
    assert_eq!(WriteFollowup::Done, after_first_write(&WriteOutcome::Accepted));
}

// Persistent write failure: the second failure is logged as persistent
// and swallowed; nothing suggests taking the connection offline.
#[test]
fn persistent_write_failure() {
    let first = after_first_write(&WriteOutcome::Failed("bus contention".to_string()));
    assert_eq!(WriteFollowup::RetryAfterInterval, first);
    let second = after_retry_write(&WriteOutcome::Failed("bus contention".to_string()));
    assert_eq!(
        Some(LogUpdate::Error(
            "Persistent Communication Error: bus contention".to_string(),
            None,
        )),
        second
    );
}

// Degraded startup: the second of three descriptors fails; the live set
// keeps the first and third in order, one error is logged, and the set is
// degraded.
#[test]
fn degraded_startup() {
    let outcomes: Vec<Result<&str, String>> = vec![
        Ok("first adapter"),
        Err("port missing".to_string()),
        Ok("third adapter"),
    ];
    let (live, logs, degraded) = collect_live(outcomes);
    assert_eq!(vec!["first adapter", "third adapter"], live);
    assert_eq!(
        vec![LogUpdate::Error(
            "System Connection Error: port missing".to_string(),
            None,
        )],
        logs
    );
    assert!(degraded);

    // A set that comes up whole is not degraded and logs nothing
    let outcomes: Vec<Result<&str, String>> = vec![Ok("one"), Ok("two")];
    let (live, logs, degraded) = collect_live(outcomes);
    assert_eq!(vec!["one", "two"], live);
    assert!(logs.is_empty());
    assert!(!degraded);
}

// Stop during poll: the worker sees the stop message at the iteration
// boundary and exits; a disconnected channel ends it too.
#[test]
fn worker_stop_and_broadcast_actions() {
    let id = ItemId::new(8).unwrap();
    assert_eq!(
        WorkerAction::Exit,
        next_worker_action(ChannelPoll::Received(ConnectionUpdate::Stop))
    );
    assert_eq!(WorkerAction::Exit, next_worker_action(ChannelPoll::Disconnected));
    assert_eq!(WorkerAction::Idle, next_worker_action(ChannelPoll::Empty));
    assert_eq!(
        WorkerAction::HandleBroadcast(id, Some(2)),
        next_worker_action(ChannelPoll::Received(ConnectionUpdate::Broadcast(id, Some(2))))
    );
}

// After an update to no connection set, a broadcast is a silent no-op.
#[test]
fn broadcast_after_stop_is_noop() {
    let mut bus = SystemConnection::new();
    let stop = bus.begin_update();
    assert!(stop.is_none());
    let degraded_result = bus.finish_update(false);
    assert!(degraded_result);

    // Running: broadcasts produce the worker message
    let id = ItemId::new(12).unwrap();
    let (message, warning) = bus.broadcast(id, Some(4));
    assert_eq!(Some(ConnectionUpdate::Broadcast(id, Some(4))), message);
    assert!(warning.is_none());

    // Stopping the worker: the stop message is owed exactly once
    let stop = bus.begin_update();
    assert_eq!(Some(ConnectionUpdate::Stop), stop);

    // Idle again: broadcasting does nothing at all
    let (message, warning) = bus.broadcast(id, Some(4));
    assert!(message.is_none());
    assert!(warning.is_none());
}

// A degraded bus warns on every broadcast.
#[test]
fn degraded_bus_warns_on_broadcast() {
    let mut bus = SystemConnection::new();
    bus.begin_update();
    let whole = bus.finish_update(true);
    assert!(!whole);
    let id = ItemId::new(5).unwrap();
    let (message, warning) = bus.broadcast(id, None);
    assert_eq!(Some(ConnectionUpdate::Broadcast(id, None)), message);
    assert_eq!(
        Some(LogUpdate::Error(
            "Unable To Reach One Or More System Connections.".to_string(),
            None,
        )),
        warning
    );
    let log = SystemConnection::send_failure_log("receiver gone");
    assert_eq!(
        LogUpdate::Error("Unable To Connect: receiver gone".to_string(), None),
        log
    );
}

// The identity-mismatch warning quotes the event id.
#[test]
fn mismatch_warning_text_quotes_id() {
    let warning = mismatch_warning(ItemId::new(307).unwrap());
    assert_eq!(
        LogUpdate::Warning(
            "Game Id Does Not Match. Event Ignored. (307)".to_string(),
            None,
        ),
        warning
    );
}

// Pacing: an iteration sleeps the remainder of the interval and never
// sleeps when the interval already passed.
#[test]
fn pacing_sleeps_the_remainder() {
    assert_eq!(7, remaining_delay(3, 10));
    assert_eq!(0, remaining_delay(10, 10));
    assert_eq!(0, remaining_delay(25, 10));
    assert_eq!(10, remaining_delay(0, 10));
    for elapsed in 0..30u64 {
        assert!(elapsed + remaining_delay(elapsed, 10) >= 10);
    }
}
