//! The configuration of the supervisor, validated once at start-up.
//!
//! Three inputs are required: the connection string of the database, the
//! connection string of the broker and the channel routing specification. A
//! fourth, the delivery mode of published messages, is optional. The caller reads
//! the inputs from wherever they come and hands them over as they are; a missing
//! input is `None`.

use vstd::prelude::*;

use crate::text::same_text;

verus! {

/// Whether the broker keeps published messages on disk.
#[derive(Clone, Copy, Debug, PartialEq, Eq, Structural)]
pub enum DeliveryMode {
    /// Messages may be lost when the broker restarts.
    NonPersistent,
    /// Messages survive a restart of the broker.
    Persistent,
}

impl DeliveryMode {
    /// The number that stands for the mode on the wire: 1 for non-persistent, 2
    /// for persistent.
    pub open spec fn code_spec(self) -> u8 {
        match self {
            DeliveryMode::NonPersistent => 1,
            DeliveryMode::Persistent => 2,
        }
    }

    /// The number that stands for the mode on the wire.
    #[verifier::when_used_as_spec(code_spec)]
    pub fn code(self) -> (code: u8)
        ensures
            code == self.code_spec(),
            code == 1 || code == 2,
    {
        match self {
            DeliveryMode::NonPersistent => 1,
            DeliveryMode::Persistent => 2,
        }
    }
}

/// A required input.
#[derive(Clone, Copy, Debug, PartialEq, Eq, Structural)]
pub enum Setting {
    /// The connection string of the database.
    DatabaseUri,
    /// The connection string of the broker.
    BrokerUri,
    /// The channel routing specification.
    ChannelSpec,
}

/// Why the inputs make no configuration.
#[derive(Debug, PartialEq, Eq)]
pub enum ConfigError {
    /// A required input is absent.
    MissingConfig(Setting),
    /// The delivery mode is neither `PERSISTENT` nor `NON-PERSISTENT`; the value
    /// is the one that was given.
    InvalidDeliveryMode(String),
}

/// What a `ConfigError` says, with the offending value as characters.
pub enum ConfigErrorView {
    MissingConfig(Setting),
    InvalidDeliveryMode(Seq<char>),
}

impl View for ConfigError {
    type V = ConfigErrorView;

    open spec fn view(&self) -> ConfigErrorView {
        match self {
            ConfigError::MissingConfig(setting) => ConfigErrorView::MissingConfig(*setting),
            ConfigError::InvalidDeliveryMode(value) => ConfigErrorView::InvalidDeliveryMode(
                value@,
            ),
        }
    }
}

/// A validated configuration. It never changes once it is made.
#[derive(Debug)]
pub struct Config {
    database_uri: String,
    broker_uri: String,
    channel_spec: String,
    delivery_mode: DeliveryMode,
}

/// What a `Config` holds, with its strings as characters.
pub struct ConfigView {
    pub database_uri: Seq<char>,
    pub broker_uri: Seq<char>,
    pub channel_spec: Seq<char>,
    pub delivery_mode: DeliveryMode,
}

impl View for Config {
    type V = ConfigView;

    closed spec fn view(&self) -> ConfigView {
        ConfigView {
            database_uri: self.database_uri@,
            broker_uri: self.broker_uri@,
            channel_spec: self.channel_spec@,
            delivery_mode: self.delivery_mode,
        }
    }
}

impl Clone for ConfigError {
    fn clone(&self) -> (cloned: ConfigError)
        ensures
            cloned@ == self@,
    {
        match self {
            ConfigError::MissingConfig(setting) => ConfigError::MissingConfig(*setting),
            ConfigError::InvalidDeliveryMode(value) => ConfigError::InvalidDeliveryMode(
                value.clone(),
            ),
        }
    }
}

impl Clone for Config {
    fn clone(&self) -> (cloned: Config)
        ensures
            cloned@ == self@,
    {
        Config {
            database_uri: self.database_uri.clone(),
            broker_uri: self.broker_uri.clone(),
            channel_spec: self.channel_spec.clone(),
            delivery_mode: self.delivery_mode,
        }
    }
}

/// The delivery mode that a hint stands for: non-persistent where there is no
/// hint, and an error that carries the hint where it is not one of the two
/// recognized words.
pub open spec fn delivery_mode_for(hint: Option<Seq<char>>) -> Result<
    DeliveryMode,
    ConfigErrorView,
> {
    match hint {
        None => Ok(DeliveryMode::NonPersistent),
        Some(value) => if value == "NON-PERSISTENT"@ {
            Ok(DeliveryMode::NonPersistent)
        } else if value == "PERSISTENT"@ {
            Ok(DeliveryMode::Persistent)
        } else {
            Err(ConfigErrorView::InvalidDeliveryMode(value))
        },
    }
}

/// The configuration that the four inputs make, or the first thing wrong with
/// them: a missing database connection string, then a missing broker connection
/// string, then a missing channel specification, then an unrecognized delivery
/// mode.
pub open spec fn load_spec(
    database_uri: Option<Seq<char>>,
    broker_uri: Option<Seq<char>>,
    channel_spec: Option<Seq<char>>,
    delivery_mode: Option<Seq<char>>,
) -> Result<ConfigView, ConfigErrorView> {
    if database_uri is None {
        Err(ConfigErrorView::MissingConfig(Setting::DatabaseUri))
    } else if broker_uri is None {
        Err(ConfigErrorView::MissingConfig(Setting::BrokerUri))
    } else if channel_spec is None {
        Err(ConfigErrorView::MissingConfig(Setting::ChannelSpec))
    } else {
        match delivery_mode_for(delivery_mode) {
            Ok(mode) => Ok(
                ConfigView {
                    database_uri: database_uri->0,
                    broker_uri: broker_uri->0,
                    channel_spec: channel_spec->0,
                    delivery_mode: mode,
                },
            ),
            Err(error) => Err(error),
        }
    }
}

/// Reads the delivery mode from its optional hint.
pub fn parse_delivery_mode(hint: Option<String>) -> (parsed: Result<DeliveryMode, ConfigError>)
    ensures
        match parsed {
            Ok(mode) => delivery_mode_for(hint.deep_view()) == Ok::<_, ConfigErrorView>(mode),
            Err(error) => delivery_mode_for(hint.deep_view()) == Err::<DeliveryMode, _>(error@),
        },
{
    match hint {
        None => Ok(DeliveryMode::NonPersistent),
        Some(value) => {
            if same_text(value.as_str(), "NON-PERSISTENT") {
                Ok(DeliveryMode::NonPersistent)
            } else if same_text(value.as_str(), "PERSISTENT") {
                Ok(DeliveryMode::Persistent)
            } else {
                Err(ConfigError::InvalidDeliveryMode(value))
            }
        },
    }
}

impl Config {
    /// Validates the four inputs and makes the configuration from them.
    ///
    /// Fails with `MissingConfig` where a required input is absent, naming the
    /// first such input, and with `InvalidDeliveryMode` where all required inputs
    /// are there and the delivery mode is given but is neither `PERSISTENT` nor
    /// `NON-PERSISTENT`.
    pub fn new(
        database_uri: Option<String>,
        broker_uri: Option<String>,
        channel_spec: Option<String>,
        delivery_mode: Option<String>,
    ) -> (loaded: Result<Config, ConfigError>)
        ensures
            match loaded {
                Ok(config) => load_spec(
                    database_uri.deep_view(),
                    broker_uri.deep_view(),
                    channel_spec.deep_view(),
                    delivery_mode.deep_view(),
                ) == Ok::<_, ConfigErrorView>(config@),
                Err(error) => load_spec(
                    database_uri.deep_view(),
                    broker_uri.deep_view(),
                    channel_spec.deep_view(),
                    delivery_mode.deep_view(),
                ) == Err::<ConfigView, _>(error@),
            },
            database_uri is None ==> loaded is Err && loaded->Err_0@
                == ConfigErrorView::MissingConfig(Setting::DatabaseUri),
            database_uri is Some && broker_uri is Some && channel_spec is Some
                && delivery_mode is Some && delivery_mode->0@ != "PERSISTENT"@
                && delivery_mode->0@ != "NON-PERSISTENT"@ ==> loaded is Err && loaded->Err_0@
                == ConfigErrorView::InvalidDeliveryMode(delivery_mode->0@),
    {
        let database_uri = match database_uri {
            Some(value) => value,
            None => { return Err(ConfigError::MissingConfig(Setting::DatabaseUri)); },
        };
        let broker_uri = match broker_uri {
            Some(value) => value,
            None => { return Err(ConfigError::MissingConfig(Setting::BrokerUri)); },
        };
        let channel_spec = match channel_spec {
            Some(value) => value,
            None => { return Err(ConfigError::MissingConfig(Setting::ChannelSpec)); },
        };
        match parse_delivery_mode(delivery_mode) {
            Ok(delivery_mode) => Ok(Config { database_uri, broker_uri, channel_spec, delivery_mode }),
            Err(error) => Err(error),
        }
    }

    /// The connection string of the database.
    pub fn database_uri(&self) -> (uri: &String)
        ensures
            uri@ == self@.database_uri,
    {
        &self.database_uri
    }

    /// The connection string of the broker.
    pub fn broker_uri(&self) -> (uri: &String)
        ensures
            uri@ == self@.broker_uri,
    {
        &self.broker_uri
    }

    /// The channel routing specification.
    pub fn channel_spec(&self) -> (spec: &String)
        ensures
            spec@ == self@.channel_spec,
    {
        &self.channel_spec
    }

    /// The delivery mode of published messages.
    pub fn delivery_mode(&self) -> (mode: DeliveryMode)
        ensures
            mode == self@.delivery_mode,
    {
        self.delivery_mode
    }
}

} // verus!
