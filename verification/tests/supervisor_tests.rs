use bridge_supervisor::config::{Config, ConfigError, DeliveryMode, Setting};
use bridge_supervisor::supervisor::{Action, Event, Fault, Phase, Supervisor};
use bridge_supervisor::tls::TlsDecision;

const DATABASE: &str = "postgres://user@localhost/db?sslmode=verify-full";
const BROKER: &str = "amqp://localhost//";
const CHANNELS: &str = "events:exchange";

fn config_for(database_uri: &str) -> Config {
    Config::new(
        Some(database_uri.to_string()),
        Some(BROKER.to_string()),
        Some(CHANNELS.to_string()),
        Some("PERSISTENT".to_string()),
    )
    .unwrap()
}

fn first_connect() -> Action<u32> {
    Action::Connect {
        database_uri: DATABASE.to_string(),
        decision: TlsDecision { verify_certificate: true, use_encrypted_transport: true },
    }
}

fn bridge(handle: u32) -> Action<u32> {
    Action::Bridge {
        handle,
        broker_uri: BROKER.to_string(),
        channel_spec: CHANNELS.to_string(),
        delivery_mode: DeliveryMode::Persistent,
    }
}

#[test]
fn supervisor_starts_with_a_connection_attempt() {
    let (supervisor, action) = Supervisor::new::<u32>(config_for(DATABASE));
    assert_eq!(action, first_connect());
    assert_eq!(supervisor.phase(), Phase::Connecting);
    assert_eq!(supervisor.delay_seconds(), 1);
    assert_eq!(supervisor.config().database_uri(), DATABASE);
}

#[test]
fn connection_string_without_sslmode_connects_as_require() {
    let (_, action) = Supervisor::new::<u32>(config_for("postgres://localhost/db"));
    assert_eq!(
        action,
        Action::Connect {
            database_uri: "postgres://localhost/db".to_string(),
            decision: TlsDecision { verify_certificate: false, use_encrypted_transport: true },
        }
    );
}

#[test]
fn malformed_connection_string_ends_before_any_attempt() {
    let (_, action) = Supervisor::new::<u32>(config_for("not a connection string"));
    assert_eq!(action, Action::Abort { fault: Fault::MalformedUri });
}

#[test]
fn seven_failed_attempts_wait_the_sawtooth() {
    let (mut supervisor, _) = Supervisor::new::<u32>(config_for(DATABASE));
    let mut waits = Vec::new();
    for _ in 0..7 {
        match supervisor.step(Event::<u32>::ConnectFailed) {
            Action::RetryAfter { seconds } => waits.push(seconds),
            other => panic!("unexpected {:?}", other),
        }
        assert_eq!(supervisor.phase(), Phase::Connecting);
    }
    assert_eq!(waits, vec![1, 2, 4, 8, 16, 32, 1]);
}

#[test]
fn any_number_of_failures_then_success_hands_the_connection_over() {
    for failures in 0..40u32 {
        let (mut supervisor, _) = Supervisor::new::<u32>(config_for(DATABASE));
        let mut waits = 0;
        for failure in 0..failures {
            let action = supervisor.step(Event::<u32>::ConnectFailed);
            assert_eq!(action, Action::RetryAfter { seconds: 1u64 << (failure % 6) });
            waits += 1;
        }
        let action = supervisor.step(Event::Connected(1000 + failures));
        assert_eq!(action, bridge(1000 + failures));
        assert_eq!(waits, failures);
        assert_eq!(supervisor.phase(), Phase::Bridging);
    }
}

#[test]
fn returning_bridge_is_answered_with_a_new_connect_cycle() {
    let (mut supervisor, _) = Supervisor::new::<u32>(config_for(DATABASE));
    let mut attempts = 1;
    for _ in 0..3 {
        supervisor.step(Event::<u32>::ConnectFailed);
        attempts += 1;
    }
    assert_eq!(supervisor.step(Event::Connected(7)), bridge(7));
    for round in 0..5u32 {
        let action = supervisor.step(Event::<u32>::BridgeReturned);
        assert_eq!(action, first_connect());
        attempts += 1;
        assert_eq!(supervisor.phase(), Phase::Connecting);
        assert_eq!(supervisor.delay_seconds(), 1);
        assert_eq!(supervisor.step(Event::Connected(round)), bridge(round));
    }
    assert_eq!(attempts, 9);
}

#[test]
fn backoff_starts_afresh_in_every_cycle() {
    let (mut supervisor, _) = Supervisor::new::<u32>(config_for(DATABASE));
    for _ in 0..4 {
        supervisor.step(Event::<u32>::ConnectFailed);
    }
    assert_eq!(supervisor.delay_seconds(), 16);
    supervisor.step(Event::Connected(1));
    supervisor.step(Event::<u32>::BridgeReturned);
    assert_eq!(
        supervisor.step(Event::<u32>::ConnectFailed),
        Action::RetryAfter { seconds: 1 }
    );
    assert_eq!(
        supervisor.step(Event::<u32>::ConnectFailed),
        Action::RetryAfter { seconds: 2 }
    );
}

#[test]
fn failed_pool_ends_the_supervisor() {
    let (mut supervisor, _) = Supervisor::new::<u32>(config_for(DATABASE));
    supervisor.step(Event::Connected(1));
    assert_eq!(
        supervisor.step(Event::<u32>::PoolFailed),
        Action::Abort { fault: Fault::PoolConstruction }
    );
}

#[test]
fn event_out_of_turn_ends_the_supervisor_and_changes_nothing() {
    let (mut supervisor, _) = Supervisor::new::<u32>(config_for(DATABASE));
    supervisor.step(Event::<u32>::ConnectFailed);
    for event in [Event::<u32>::BridgeReturned, Event::<u32>::PoolFailed] {
        assert_eq!(supervisor.step(event), Action::Abort { fault: Fault::UnexpectedEvent });
        assert_eq!(supervisor.phase(), Phase::Connecting);
        assert_eq!(supervisor.delay_seconds(), 2);
    }
    supervisor.step(Event::Connected(1));
    for event in [Event::<u32>::ConnectFailed, Event::Connected(2)] {
        assert_eq!(supervisor.step(event), Action::Abort { fault: Fault::UnexpectedEvent });
        assert_eq!(supervisor.phase(), Phase::Bridging);
    }
}

#[test]
fn configuration_never_changes() {
    let (mut supervisor, _) = Supervisor::new::<u32>(config_for(DATABASE));
    let events = [
        Event::<u32>::ConnectFailed,
        Event::Connected(1),
        Event::<u32>::PoolFailed,
        Event::<u32>::BridgeReturned,
        Event::<u32>::ConnectFailed,
        Event::<u32>::BridgeReturned,
    ];
    for event in events {
        supervisor.step(event);
        assert_eq!(supervisor.config().database_uri(), DATABASE);
        assert_eq!(supervisor.config().broker_uri(), BROKER);
        assert_eq!(supervisor.config().channel_spec(), CHANNELS);
        assert_eq!(supervisor.config().delivery_mode(), DeliveryMode::Persistent);
    }
}

#[test]
fn missing_database_uri_leaves_nothing_to_supervise() {
    let loaded = Config::new(None, Some(BROKER.to_string()), Some(CHANNELS.to_string()), None);
    match loaded {
        Err(error) => assert_eq!(error, ConfigError::MissingConfig(Setting::DatabaseUri)),
        Ok(_) => panic!("a configuration was made without a database connection string"),
    }
}
