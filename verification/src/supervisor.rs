//! The supervisor: what to do next after each outcome.
//!
//! The supervisor connects to the database, retrying with a growing delay for as
//! long as attempts fail, hands the connection to the bridge, and starts over
//! whenever the bridge returns. It does none of this itself. The caller performs
//! each `Action` and reports what came of it as an `Event`; `Supervisor::step`
//! answers with the next action.

use vstd::prelude::*;

use crate::backoff::{
    lemma_next_delay_follows_sawtooth, next_delay, sawtooth_delay, Backoff, MAX_DELAY_SECONDS,
};
use crate::config::{Config, ConfigView, DeliveryMode};
use crate::tls::{resolve, resolve_spec, TlsDecision};

verus! {

/// What the supervisor is busy with.
#[derive(Clone, Copy, Debug, PartialEq, Eq, Structural)]
pub enum Phase {
    /// Connection attempts are under way.
    Connecting,
    /// The bridge runs on a connection that was handed over.
    Bridging,
}

/// What came of the last action. `H` is the caller's handle for a connection that
/// was made.
#[derive(Debug, PartialEq, Eq)]
pub enum Event<H> {
    /// A connection attempt failed.
    ConnectFailed,
    /// A connection attempt succeeded.
    Connected(H),
    /// No pool could be built around the connection.
    PoolFailed,
    /// The bridge returned.
    BridgeReturned,
}

/// Why the supervisor gives up.
#[derive(Clone, Copy, Debug, PartialEq, Eq, Structural)]
pub enum Fault {
    /// The connection string of the database is not an absolute URL.
    MalformedUri,
    /// No pool could be built around a connection that had just been made.
    PoolConstruction,
    /// An event was reported that the last action cannot have led to.
    UnexpectedEvent,
}

/// What the caller is to do next.
#[derive(Debug, PartialEq, Eq)]
pub enum Action<H> {
    /// Attempt a connection to the database, secured as `decision` says, and
    /// report `ConnectFailed` or `Connected`.
    Connect { database_uri: String, decision: TlsDecision },
    /// Wait for `seconds` seconds, attempt the connection again, and report
    /// `ConnectFailed` or `Connected`.
    RetryAfter { seconds: u64 },
    /// Build a pool around the connection and run the bridge on it until it
    /// returns; report `BridgeReturned`, or `PoolFailed` where there is no pool.
    Bridge { handle: H, broker_uri: String, channel_spec: String, delivery_mode: DeliveryMode },
    /// Stop: nothing can be done about `fault`.
    Abort { fault: Fault },
}

/// What an `Action` says, with its strings as characters.
pub enum ActionView<H> {
    Connect { database_uri: Seq<char>, decision: TlsDecision },
    RetryAfter { seconds: nat },
    Bridge {
        handle: H,
        broker_uri: Seq<char>,
        channel_spec: Seq<char>,
        delivery_mode: DeliveryMode,
    },
    Abort { fault: Fault },
}

impl<H> View for Action<H> {
    type V = ActionView<H>;

    open spec fn view(&self) -> ActionView<H> {
        match self {
            Action::Connect { database_uri, decision } => ActionView::Connect {
                database_uri: database_uri@,
                decision: *decision,
            },
            Action::RetryAfter { seconds } => ActionView::RetryAfter { seconds: *seconds as nat },
            Action::Bridge { handle, broker_uri, channel_spec, delivery_mode } => ActionView::Bridge {
                handle: *handle,
                broker_uri: broker_uri@,
                channel_spec: channel_spec@,
                delivery_mode: *delivery_mode,
            },
            Action::Abort { fault } => ActionView::Abort { fault: *fault },
        }
    }
}

/// The state of the supervisor.
pub struct Supervisor {
    config: Config,
    phase: Phase,
    backoff: Backoff,
}

/// What a `Supervisor` holds: its configuration, its phase, and the delay in
/// seconds that the next failed attempt of the connect cycle is followed by.
pub struct SupervisorView {
    pub config: ConfigView,
    pub phase: Phase,
    pub delay: nat,
}

/// The state in which every connect cycle starts.
pub open spec fn cycle_start(config: ConfigView) -> SupervisorView {
    SupervisorView { config, phase: Phase::Connecting, delay: 1 }
}

/// The action that opens a connect cycle: a first attempt, secured as the
/// connection string asks, or the end where the connection string is malformed.
pub open spec fn connect_order<H>(config: ConfigView) -> ActionView<H> {
    match resolve_spec(config.database_uri) {
        Ok(decision) => ActionView::Connect { database_uri: config.database_uri, decision },
        Err(_) => ActionView::Abort { fault: Fault::MalformedUri },
    }
}

/// The action that hands a connection to the bridge.
pub open spec fn bridge_order<H>(config: ConfigView, handle: H) -> ActionView<H> {
    ActionView::Bridge {
        handle,
        broker_uri: config.broker_uri,
        channel_spec: config.channel_spec,
        delivery_mode: config.delivery_mode,
    }
}

/// The state that follows `state` on `event`.
pub open spec fn next_state<H>(state: SupervisorView, event: Event<H>) -> SupervisorView {
    match (state.phase, event) {
        (Phase::Connecting, Event::ConnectFailed) => SupervisorView {
            config: state.config,
            phase: Phase::Connecting,
            delay: next_delay(state.delay),
        },
        (Phase::Connecting, Event::Connected(_)) => SupervisorView {
            config: state.config,
            phase: Phase::Bridging,
            delay: state.delay,
        },
        (Phase::Bridging, Event::BridgeReturned) => cycle_start(state.config),
        _ => state,
    }
}

/// The action that answers `event` in `state`.
pub open spec fn next_action<H>(state: SupervisorView, event: Event<H>) -> ActionView<H> {
    match (state.phase, event) {
        (Phase::Connecting, Event::ConnectFailed) => ActionView::RetryAfter { seconds: state.delay },
        (Phase::Connecting, Event::Connected(handle)) => bridge_order(state.config, handle),
        (Phase::Bridging, Event::BridgeReturned) => connect_order(state.config),
        (Phase::Bridging, Event::PoolFailed) => ActionView::Abort {
            fault: Fault::PoolConstruction,
        },
        _ => ActionView::Abort { fault: Fault::UnexpectedEvent },
    }
}

/// Where the supervisor stands after a run of events, and the actions it
/// answered them with, in order.
pub open spec fn run<H>(state: SupervisorView, events: Seq<Event<H>>) -> (
    SupervisorView,
    Seq<ActionView<H>>,
)
    decreases events.len(),
{
    if events.len() == 0 {
        (state, Seq::empty())
    } else {
        let (before, actions) = run(state, events.drop_last());
        (next_state(before, events.last()), actions.push(next_action(before, events.last())))
    }
}

/// A run of `failures` failed attempts.
pub open spec fn failed_attempts<H>(failures: nat) -> Seq<Event<H>> {
    Seq::new(failures, |i: int| Event::ConnectFailed)
}

impl View for Supervisor {
    type V = SupervisorView;

    closed spec fn view(&self) -> SupervisorView {
        SupervisorView { config: self.config@, phase: self.phase, delay: self.backoff.delay() }
    }
}

impl Supervisor {
    /// Starts the supervisor on a configuration: it is connecting, and the action
    /// returned opens the first connect cycle.
    pub fn new<H>(config: Config) -> (started: (Supervisor, Action<H>))
        ensures
            started.0@ == cycle_start(config@),
            started.1@ == connect_order::<H>(config@),
    {
        let supervisor = Supervisor { config, phase: Phase::Connecting, backoff: Backoff::new() };
        let action = supervisor.open_cycle();
        (supervisor, action)
    }

    /// The configuration that the supervisor was started on.
    pub fn config(&self) -> (config: &Config)
        ensures
            config@ == self@.config,
    {
        &self.config
    }

    /// What the supervisor is busy with.
    pub fn phase(&self) -> (phase: Phase)
        ensures
            phase == self@.phase,
    {
        self.phase
    }

    /// The delay, in seconds, that the next failed attempt of the connect cycle
    /// is followed by.
    pub fn delay_seconds(&self) -> (seconds: u64)
        ensures
            seconds == self@.delay,
            1 <= seconds <= MAX_DELAY_SECONDS,
    {
        self.backoff.delay_seconds()
    }

    fn open_cycle<H>(&self) -> (action: Action<H>)
        ensures
            action@ == connect_order::<H>(self@.config),
    {
        match resolve(self.config.database_uri().as_str()) {
            Ok(decision) => Action::Connect {
                database_uri: self.config.database_uri().clone(),
                decision,
            },
            Err(_) => Action::Abort { fault: Fault::MalformedUri },
        }
    }

    /// Takes in what came of the last action and answers with the next one.
    ///
    /// While connecting, a failed attempt is answered with the wait before the
    /// next attempt, and a connection with its handing over to the bridge. While
    /// bridging, the bridge's return is answered with a new connect cycle, and a
    /// pool that could not be built with the end. Any other event is answered
    /// with the end and changes nothing. The configuration never changes.
    pub fn step<H>(&mut self, event: Event<H>) -> (action: Action<H>)
        ensures
            final(self)@ == next_state(old(self)@, event),
            action@ == next_action(old(self)@, event),
            final(self)@.config == old(self)@.config,
    {
        match self.phase {
            Phase::Connecting => match event {
                Event::ConnectFailed => {
                    let seconds = self.backoff.fail();
                    Action::RetryAfter { seconds }
                },
                Event::Connected(handle) => {
                    self.phase = Phase::Bridging;
                    Action::Bridge {
                        handle,
                        broker_uri: self.config.broker_uri().clone(),
                        channel_spec: self.config.channel_spec().clone(),
                        delivery_mode: self.config.delivery_mode(),
                    }
                },
                _ => Action::Abort { fault: Fault::UnexpectedEvent },
            },
            Phase::Bridging => match event {
                Event::BridgeReturned => {
                    self.phase = Phase::Connecting;
                    self.backoff = Backoff::new();
                    self.open_cycle()
                },
                Event::PoolFailed => Action::Abort { fault: Fault::PoolConstruction },
                _ => Action::Abort { fault: Fault::UnexpectedEvent },
            },
        }
    }
}

/// The configuration never changes, and the delay stays between one second and
/// the maximum, whatever happens.
pub proof fn lemma_step_keeps_config_and_delay_range<H>(state: SupervisorView, event: Event<H>)
    requires
        1 <= state.delay <= MAX_DELAY_SECONDS,
    ensures
        next_state(state, event).config == state.config,
        1 <= next_state(state, event).delay <= MAX_DELAY_SECONDS,
{
}

/// From the start of a connect cycle, any number of failed attempts in a row
/// leaves the supervisor connecting. Each failure is answered with a wait, and
/// the waits are the sawtooth 1, 2, 4, 8, 16, 32, 1, 2, ... seconds.
pub proof fn lemma_failures_walk_the_sawtooth<H>(config: ConfigView, failures: nat)
    ensures
        run(cycle_start(config), failed_attempts::<H>(failures)).0 == (SupervisorView {
            config,
            phase: Phase::Connecting,
            delay: sawtooth_delay(failures),
        }),
        run(cycle_start(config), failed_attempts::<H>(failures)).1 =~= Seq::new(
            failures,
            |i: int| ActionView::<H>::RetryAfter { seconds: sawtooth_delay(i as nat) },
        ),
    decreases failures,
{
    if failures > 0 {
        let shorter = (failures - 1) as nat;
        lemma_failures_walk_the_sawtooth::<H>(config, shorter);
        assert(failed_attempts::<H>(failures).drop_last() =~= failed_attempts::<H>(shorter));
        lemma_next_delay_follows_sawtooth(shorter);
    }
}

/// From the start of a connect cycle, `failures` failed attempts followed by a
/// successful one are answered with exactly `failures` waits and then with the
/// handing over of the handle that the successful attempt produced. The
/// supervisor never gives up on the way, and is bridging at the end.
pub proof fn lemma_connects_after_any_number_of_failures<H>(
    config: ConfigView,
    failures: nat,
    handle: H,
)
    ensures
        ({
            let events = failed_attempts::<H>(failures).push(Event::Connected(handle));
            let (end, actions) = run(cycle_start(config), events);
            &&& actions.len() == failures + 1
            &&& forall|i: int|
                0 <= i < failures ==> #[trigger] actions[i] == ActionView::<H>::RetryAfter {
                    seconds: sawtooth_delay(i as nat),
                }
            &&& actions[failures as int] == bridge_order(config, handle)
            &&& end.phase == Phase::Bridging
            &&& end.config == config
        }),
{
    let events = failed_attempts::<H>(failures).push(Event::Connected(handle));
    assert(events.drop_last() =~= failed_attempts::<H>(failures));
    lemma_failures_walk_the_sawtooth::<H>(config, failures);
}

/// Whenever the bridge returns, a new connect cycle starts with a fresh backoff
/// and the configuration unchanged. Where the connection string of the database
/// is well-formed, the answer is a connection attempt, never the end.
pub proof fn lemma_bridge_return_starts_new_cycle<H>(state: SupervisorView)
    requires
        state.phase == Phase::Bridging,
    ensures
        next_state(state, Event::<H>::BridgeReturned) == cycle_start(state.config),
        resolve_spec(state.config.database_uri) matches Ok(decision) ==> next_action(
            state,
            Event::<H>::BridgeReturned,
        ) == (ActionView::<H>::Connect { database_uri: state.config.database_uri, decision }),
{
}

/// A connection is handed to the bridge only in answer to the event that
/// reported it, and it is that connection that is handed over.
pub proof fn lemma_bridge_only_on_connection<H>(state: SupervisorView, event: Event<H>)
    ensures
        next_action(state, event) is Bridge ==> state.phase == Phase::Connecting && event
            == Event::Connected(next_action(state, event)->handle),
{
}

} // verus!
