use bevy_ethers::block::BlockRecord;
use bevy_ethers::channel::BridgeChannel;
use bevy_ethers::driver::{
    Action, Driver, DriverConfig, DriverError, DriverState, Event, ResolutionPolicy, SourceMode,
};

fn record(hash: u64) -> BlockRecord {
    BlockRecord { hash, txs: vec![hash * 10] }
}

fn subscription_driver(policy: ResolutionPolicy) -> Driver {
    let config = DriverConfig::new(
        Some("ws://node.example".to_string()),
        SourceMode::Subscription,
        policy,
    )
    .expect("endpoint is present");
    Driver::new(&config)
}

#[test]
fn missing_endpoint_is_a_configuration_error() {
    let err = DriverConfig::new(None, SourceMode::Subscription, ResolutionPolicy::Skip)
        .expect_err("no endpoint must be fatal at startup");
    assert_eq!(err, DriverError::Configuration);
}

#[test]
fn present_endpoint_configures_the_driver() {
    let config = DriverConfig::new(
        Some("ws://node.example".to_string()),
        SourceMode::Subscription,
        ResolutionPolicy::Skip,
    )
    .expect("endpoint is present");
    assert_eq!(config.endpoint, "ws://node.example");
    assert_eq!(config.mode, SourceMode::Subscription);
    assert_eq!(config.policy, ResolutionPolicy::Skip);
}

#[test]
fn three_notifications_arrive_in_order_across_ticks() {
    let mut driver = subscription_driver(ResolutionPolicy::Skip);
    let mut chan = BridgeChannel::new(10);
    let mut observed: Vec<u64> = Vec::new();

    assert!(matches!(driver.step(Event::ConnectOk), Action::Subscribe));
    assert!(matches!(driver.step(Event::SubscribeOk), Action::AwaitNotification));
    for id in [1u64, 2, 3] {
        match driver.step(Event::Notification { id }) {
            Action::FetchBlock { id: fetch_id } => assert_eq!(fetch_id, id),
            other => panic!("expected a fetch, got {:?}", other),
        }
        match driver.step(Event::FetchOk { block: record(id) }) {
            Action::SendRecord { block } => {
                assert!(chan.try_send(block).is_none());
            },
            other => panic!("expected a send, got {:?}", other),
        }
        assert!(matches!(driver.step(Event::SendCompleted), Action::AwaitNotification));
        // One host tick: drain whatever has arrived so far.
        for drained in chan.try_drain() {
            observed.push(drained.hash);
        }
    }
    assert_eq!(observed, vec![1, 2, 3]);
}

#[test]
fn connection_failure_terminates_before_anything_is_sent() {
    let mut driver = subscription_driver(ResolutionPolicy::Skip);
    let mut chan = BridgeChannel::new(10);

    assert!(matches!(driver.step(Event::ConnectFailed), Action::Halt));
    assert!(matches!(
        driver.state,
        DriverState::Stopped { error: Some(DriverError::Connection) }
    ));
    // Whatever arrives later, the stopped driver only ever asks to halt, so
    // the channel stays empty and every further drain returns nothing.
    assert!(matches!(driver.step(Event::Notification { id: 1 }), Action::Halt));
    assert!(matches!(driver.step(Event::FetchOk { block: record(1) }), Action::Halt));
    assert!(chan.try_drain().is_empty());
    assert!(chan.try_drain().is_empty());
}

#[test]
fn subscription_refusal_is_fatal() {
    let mut driver = subscription_driver(ResolutionPolicy::Skip);
    assert!(matches!(driver.step(Event::ConnectOk), Action::Subscribe));
    assert!(matches!(driver.step(Event::SubscribeFailed), Action::Halt));
    assert!(matches!(
        driver.state,
        DriverState::Stopped { error: Some(DriverError::Subscription) }
    ));
}

#[test]
fn skip_policy_keeps_listening_after_a_failed_resolution() {
    let mut driver = subscription_driver(ResolutionPolicy::Skip);
    assert!(matches!(driver.step(Event::ConnectOk), Action::Subscribe));
    assert!(matches!(driver.step(Event::SubscribeOk), Action::AwaitNotification));
    assert!(matches!(
        driver.step(Event::Notification { id: 1 }),
        Action::FetchBlock { id: 1 }
    ));
    // The block is not found, the notification is skipped, and the next
    // notification is still processed.
    assert!(matches!(driver.step(Event::FetchNotFound), Action::AwaitNotification));
    assert!(matches!(
        driver.step(Event::Notification { id: 2 }),
        Action::FetchBlock { id: 2 }
    ));
    match driver.step(Event::FetchOk { block: record(2) }) {
        Action::SendRecord { block } => assert_eq!(block.hash, 2),
        other => panic!("expected a send, got {:?}", other),
    }
}

#[test]
fn fatal_policy_terminates_on_a_failed_resolution() {
    let mut driver = subscription_driver(ResolutionPolicy::Fatal);
    assert!(matches!(driver.step(Event::ConnectOk), Action::Subscribe));
    assert!(matches!(driver.step(Event::SubscribeOk), Action::AwaitNotification));
    assert!(matches!(
        driver.step(Event::Notification { id: 1 }),
        Action::FetchBlock { id: 1 }
    ));
    assert!(matches!(driver.step(Event::FetchNotFound), Action::Halt));
    assert!(matches!(
        driver.state,
        DriverState::Stopped { error: Some(DriverError::Resolution) }
    ));
    // No later notification revives the loop.
    assert!(matches!(driver.step(Event::Notification { id: 2 }), Action::Halt));
}

#[test]
fn stream_end_stops_the_driver_cleanly() {
    let mut driver = subscription_driver(ResolutionPolicy::Skip);
    assert!(matches!(driver.step(Event::ConnectOk), Action::Subscribe));
    assert!(matches!(driver.step(Event::SubscribeOk), Action::AwaitNotification));
    assert!(matches!(driver.step(Event::StreamEnded), Action::Halt));
    assert!(matches!(driver.state, DriverState::Stopped { error: None }));
}

#[test]
fn channel_closure_stops_the_driver_during_a_send() {
    let mut driver = subscription_driver(ResolutionPolicy::Skip);
    assert!(matches!(driver.step(Event::ConnectOk), Action::Subscribe));
    assert!(matches!(driver.step(Event::SubscribeOk), Action::AwaitNotification));
    assert!(matches!(
        driver.step(Event::Notification { id: 1 }),
        Action::FetchBlock { id: 1 }
    ));
    assert!(matches!(
        driver.step(Event::FetchOk { block: record(1) }),
        Action::SendRecord { .. }
    ));
    assert!(matches!(driver.step(Event::ChannelClosed), Action::Halt));
    assert!(matches!(
        driver.state,
        DriverState::Stopped { error: Some(DriverError::ChannelClosed) }
    ));
}

#[test]
fn polling_mode_fetches_the_latest_block_on_each_round() {
    let config = DriverConfig::new(
        Some("http://node.example".to_string()),
        SourceMode::Polling,
        ResolutionPolicy::Skip,
    )
    .expect("endpoint is present");
    let mut driver = Driver::new(&config);

    assert!(matches!(driver.step(Event::ConnectOk), Action::RequestLatest));
    assert!(matches!(
        driver.step(Event::LatestNumber { id: 41 }),
        Action::FetchBlock { id: 41 }
    ));
    match driver.step(Event::FetchOk { block: record(41) }) {
        Action::SendRecord { block } => assert_eq!(block.hash, 41),
        other => panic!("expected a send, got {:?}", other),
    }
    // After a delivered block the legacy mode simply polls again, so the
    // same block can be fetched and delivered twice.
    assert!(matches!(driver.step(Event::SendCompleted), Action::RequestLatest));
    assert!(matches!(
        driver.step(Event::LatestNumber { id: 41 }),
        Action::FetchBlock { id: 41 }
    ));
}

#[test]
fn polling_mode_swallows_transient_errors_and_retries() {
    let config = DriverConfig::new(
        Some("http://node.example".to_string()),
        SourceMode::Polling,
        ResolutionPolicy::Fatal,
    )
    .expect("endpoint is present");
    let mut driver = Driver::new(&config);

    assert!(matches!(driver.step(Event::ConnectOk), Action::RequestLatest));
    assert!(matches!(driver.step(Event::LatestUnavailable), Action::RequestLatest));
    assert!(matches!(
        driver.step(Event::LatestNumber { id: 5 }),
        Action::FetchBlock { id: 5 }
    ));
    // Even under the fatal policy the legacy mode retries after a failed
    // fetch instead of terminating.
    assert!(matches!(driver.step(Event::FetchNotFound), Action::RequestLatest));
    assert!(matches!(
        driver.step(Event::LatestNumber { id: 6 }),
        Action::FetchBlock { id: 6 }
    ));
    assert!(matches!(driver.step(Event::FetchFailed), Action::RequestLatest));
}

#[test]
fn unexpected_events_are_ignored() {
    let mut driver = subscription_driver(ResolutionPolicy::Skip);
    assert!(matches!(driver.step(Event::Notification { id: 1 }), Action::Wait));
    assert!(matches!(driver.state, DriverState::Connecting));
    assert!(matches!(driver.step(Event::ConnectOk), Action::Subscribe));
}
