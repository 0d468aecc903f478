use bridge_supervisor::config::{parse_delivery_mode, Config, ConfigError, DeliveryMode, Setting};

fn text(value: &str) -> Option<String> {
    Some(value.to_string())
}

fn load(mode: Option<String>) -> Result<Config, ConfigError> {
    Config::new(
        text("postgres://user@localhost/db"),
        text("amqp://localhost//"),
        text("events:exchange"),
        mode,
    )
}

#[test]
fn all_inputs_make_a_configuration() {
    let config = load(text("PERSISTENT")).unwrap();
    assert_eq!(config.database_uri(), "postgres://user@localhost/db");
    assert_eq!(config.broker_uri(), "amqp://localhost//");
    assert_eq!(config.channel_spec(), "events:exchange");
    assert_eq!(config.delivery_mode(), DeliveryMode::Persistent);
}

#[test]
fn absent_delivery_mode_is_non_persistent() {
    let config = load(None).unwrap();
    assert_eq!(config.delivery_mode(), DeliveryMode::NonPersistent);
    assert_eq!(config.delivery_mode().code(), 1);
}

#[test]
fn non_persistent_word_is_non_persistent() {
    let config = load(text("NON-PERSISTENT")).unwrap();
    assert_eq!(config.delivery_mode(), DeliveryMode::NonPersistent);
}

#[test]
fn delivery_mode_codes_are_one_and_two() {
    assert_eq!(DeliveryMode::NonPersistent.code(), 1);
    assert_eq!(DeliveryMode::Persistent.code(), 2);
}

#[test]
fn unrecognized_delivery_mode_is_rejected_with_its_value() {
    for word in ["persistent", "Persistent", "PERSISTENT ", "DURABLE", "2", "NON_PERSISTENT", ""] {
        match load(text(word)) {
            Err(error) => assert_eq!(error, ConfigError::InvalidDeliveryMode(word.to_string())),
            Ok(_) => panic!("{:?} was accepted", word),
        }
    }
}

#[test]
fn parse_delivery_mode_reads_the_two_words() {
    assert_eq!(parse_delivery_mode(None), Ok(DeliveryMode::NonPersistent));
    assert_eq!(parse_delivery_mode(text("NON-PERSISTENT")), Ok(DeliveryMode::NonPersistent));
    assert_eq!(parse_delivery_mode(text("PERSISTENT")), Ok(DeliveryMode::Persistent));
    assert_eq!(
        parse_delivery_mode(text("TRANSIENT")),
        Err(ConfigError::InvalidDeliveryMode("TRANSIENT".to_string()))
    );
}

#[test]
fn missing_database_uri_is_reported() {
    let loaded = Config::new(None, text("amqp://localhost//"), text("events:exchange"), None);
    assert_eq!(loaded.unwrap_err(), ConfigError::MissingConfig(Setting::DatabaseUri));
}

#[test]
fn missing_broker_uri_is_reported() {
    let loaded = Config::new(text("postgres://localhost"), None, text("events:exchange"), None);
    assert_eq!(loaded.unwrap_err(), ConfigError::MissingConfig(Setting::BrokerUri));
}

#[test]
fn missing_channel_spec_is_reported() {
    let loaded = Config::new(text("postgres://localhost"), text("amqp://localhost//"), None, None);
    assert_eq!(loaded.unwrap_err(), ConfigError::MissingConfig(Setting::ChannelSpec));
}

#[test]
fn first_missing_input_is_the_one_reported() {
    let loaded = Config::new(None, None, None, text("DURABLE"));
    assert_eq!(loaded.unwrap_err(), ConfigError::MissingConfig(Setting::DatabaseUri));
    let loaded = Config::new(text("postgres://localhost"), None, None, text("DURABLE"));
    assert_eq!(loaded.unwrap_err(), ConfigError::MissingConfig(Setting::BrokerUri));
    let loaded = Config::new(text("postgres://localhost"), text("amqp://h//"), None, text("DURABLE"));
    assert_eq!(loaded.unwrap_err(), ConfigError::MissingConfig(Setting::ChannelSpec));
}

#[test]
fn inputs_are_kept_as_given() {
    let config = Config::new(text(""), text(" amqp "), text("a:b,c:d"), None).unwrap();
    assert_eq!(config.database_uri(), "");
    assert_eq!(config.broker_uri(), " amqp ");
    assert_eq!(config.channel_spec(), "a:b,c:d");
}

#[test]
fn clones_hold_what_was_cloned() {
    let config = load(text("PERSISTENT")).unwrap();
    let copy = config.clone();
    assert_eq!(copy.database_uri(), config.database_uri());
    assert_eq!(copy.broker_uri(), config.broker_uri());
    assert_eq!(copy.channel_spec(), config.channel_spec());
    assert_eq!(copy.delivery_mode(), DeliveryMode::Persistent);
    let error = load(text("DURABLE")).unwrap_err();
    assert_eq!(error.clone(), error);
    let error = ConfigError::MissingConfig(Setting::BrokerUri);
    assert_eq!(error.clone(), error);
}
