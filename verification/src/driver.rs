use vstd::prelude::*;

use crate::block::BlockRecord;

verus! {

/// The error taxonomy of the bridge.
#[derive(Debug, Clone, Copy, PartialEq, Eq, Structural)]
pub enum DriverError {
    /// The required endpoint was missing at startup.
    Configuration,
    /// The persistent connection could not be established or maintained.
    Connection,
    /// The remote endpoint refused the subscription request.
    Subscription,
    /// A follow-up fetch found no block for a notification.
    Resolution,
    /// The consumer half of the bridge channel was destroyed.
    ChannelClosed,
}

/// What a failed follow-up fetch does to the driver: abort the whole loop,
/// or log-and-skip the one notification and keep listening.
#[derive(Debug, Clone, Copy, PartialEq, Eq, Structural)]
pub enum ResolutionPolicy {
    Fatal,
    Skip,
}

/// How new blocks are discovered: the push subscription, or the weaker
/// legacy fallback that polls for the highest block number on a cadence.
#[derive(Debug, Clone, Copy, PartialEq, Eq, Structural)]
pub enum SourceMode {
    Subscription,
    Polling,
}

/// Where the driver stands between two suspension points. The block being
/// sent, if any, is with the caller while the send is in flight, so no state
/// carries a record.
#[derive(Debug, Clone, Copy)]
pub enum DriverState {
    /// Establishing the persistent connection.
    Connecting,
    /// Asking the remote endpoint for a new-block subscription.
    Subscribing,
    /// Waiting for the next notification on the stream.
    Listening,
    /// A follow-up fetch of block `id` is in flight.
    Fetching { id: u64 },
    /// A resolved record is being handed to the bridge channel.
    Sending,
    /// Asking the node for its current highest block number (legacy mode).
    PollRequesting,
    /// Fetching the highest block `id` (legacy mode).
    PollFetching { id: u64 },
    /// The loop has ended; `error` says why, or is `None` after a clean end
    /// of the stream.
    Stopped { error: Option<DriverError> },
}

/// What the environment reports back to the driver at a suspension point.
#[derive(Debug)]
pub enum Event {
    ConnectOk,
    ConnectFailed,
    SubscribeOk,
    SubscribeFailed,
    /// A notification arrived, carrying only the block identifier.
    Notification { id: u64 },
    /// The notification stream ended: the connection dropped.
    StreamEnded,
    /// The follow-up fetch returned the full block.
    FetchOk { block: BlockRecord },
    /// The follow-up fetch found no such block.
    FetchNotFound,
    /// The follow-up fetch itself failed in transit.
    FetchFailed,
    /// The bridge channel stored the record.
    SendCompleted,
    /// The consumer half of the bridge channel is gone.
    ChannelClosed,
    /// The node answered a highest-block-number request (legacy mode).
    LatestNumber { id: u64 },
    /// The highest-block-number request failed (legacy mode).
    LatestUnavailable,
}

/// What the driver asks the environment to do next.
#[derive(Debug)]
pub enum Action {
    /// Establish the persistent connection to the endpoint.
    Connect,
    /// Open the new-block subscription on the connection.
    Subscribe,
    /// Await the next notification on the stream.
    AwaitNotification,
    /// Fetch the full block with this identifier.
    FetchBlock { id: u64 },
    /// Hand this record to the bridge channel; the send may block under
    /// back-pressure.
    SendRecord { block: BlockRecord },
    /// Ask the node for its current highest block number, after the poll
    /// cadence (legacy mode).
    RequestLatest,
    /// The event did not belong to this state; keep waiting.
    Wait,
    /// The loop is over; release the connection and stop.
    Halt,
}

/// The whole transition relation of the driver, one case per suspension
/// point outcome. Events that cannot occur in the current state leave the
/// state unchanged and ask the environment to keep waiting.
pub open spec fn step_spec(
    s: DriverState,
    mode: SourceMode,
    policy: ResolutionPolicy,
    e: Event,
) -> (DriverState, Action) {
    match (s, e) {
        (DriverState::Connecting, Event::ConnectOk) => match mode {
            SourceMode::Subscription => (DriverState::Subscribing, Action::Subscribe),
            SourceMode::Polling => (DriverState::PollRequesting, Action::RequestLatest),
        },
        (DriverState::Connecting, Event::ConnectFailed) => (
            DriverState::Stopped { error: Some(DriverError::Connection) },
            Action::Halt,
        ),
        (DriverState::Subscribing, Event::SubscribeOk) => (
            DriverState::Listening,
            Action::AwaitNotification,
        ),
        (DriverState::Subscribing, Event::SubscribeFailed) => (
            DriverState::Stopped { error: Some(DriverError::Subscription) },
            Action::Halt,
        ),
        (DriverState::Listening, Event::Notification { id }) => (
            DriverState::Fetching { id },
            Action::FetchBlock { id },
        ),
        (DriverState::Listening, Event::StreamEnded) => (
            DriverState::Stopped { error: None },
            Action::Halt,
        ),
        (DriverState::Fetching { .. }, Event::FetchOk { block }) => (
            DriverState::Sending,
            Action::SendRecord { block },
        ),
        (DriverState::Fetching { .. }, Event::FetchNotFound) => match policy {
            ResolutionPolicy::Skip => (DriverState::Listening, Action::AwaitNotification),
            ResolutionPolicy::Fatal => (
                DriverState::Stopped { error: Some(DriverError::Resolution) },
                Action::Halt,
            ),
        },
        (DriverState::Fetching { .. }, Event::FetchFailed) => (
            DriverState::Stopped { error: Some(DriverError::Connection) },
            Action::Halt,
        ),
        (DriverState::Sending, Event::SendCompleted) => match mode {
            SourceMode::Subscription => (DriverState::Listening, Action::AwaitNotification),
            SourceMode::Polling => (DriverState::PollRequesting, Action::RequestLatest),
        },
        (DriverState::Sending, Event::ChannelClosed) => (
            DriverState::Stopped { error: Some(DriverError::ChannelClosed) },
            Action::Halt,
        ),
        (DriverState::PollRequesting, Event::LatestNumber { id }) => (
            DriverState::PollFetching { id },
            Action::FetchBlock { id },
        ),
        (DriverState::PollRequesting, Event::LatestUnavailable) => (
            DriverState::PollRequesting,
            Action::RequestLatest,
        ),
        (DriverState::PollFetching { .. }, Event::FetchOk { block }) => (
            DriverState::Sending,
            Action::SendRecord { block },
        ),
        (DriverState::PollFetching { .. }, Event::FetchNotFound) => (
            DriverState::PollRequesting,
            Action::RequestLatest,
        ),
        (DriverState::PollFetching { .. }, Event::FetchFailed) => (
            DriverState::PollRequesting,
            Action::RequestLatest,
        ),
        (DriverState::Stopped { error }, _) => (DriverState::Stopped { error }, Action::Halt),
        (other, _) => (other, Action::Wait),
    }
}

/// Once stopped, the driver stays stopped and only ever asks to halt: after
/// a fatal error or a clean end of the stream, no event can revive the loop
/// and no further record is ever sent.
pub proof fn lemma_stopped_is_final(
    error: Option<DriverError>,
    mode: SourceMode,
    policy: ResolutionPolicy,
    e: Event,
)
    ensures
        step_spec(DriverState::Stopped { error }, mode, policy, e).0
            == (DriverState::Stopped { error }),
        step_spec(DriverState::Stopped { error }, mode, policy, e).1 == Action::Halt,
{
}

/// Explicit configuration for one driver, passed in at startup; there is no
/// ambient process-wide state.
#[derive(Debug)]
pub struct DriverConfig {
    /// The remote streaming endpoint.
    pub endpoint: String,
    pub mode: SourceMode,
    pub policy: ResolutionPolicy,
}

impl DriverConfig {
    /// Builds the configuration from the endpoint the collaborator supplied,
    /// if any. A missing endpoint is the one configuration error: the driver
    /// is never started.
    pub fn new(
        endpoint: Option<String>,
        mode: SourceMode,
        policy: ResolutionPolicy,
    ) -> (r: Result<DriverConfig, DriverError>)
        ensures
            endpoint matches Some(u) ==> (r matches Ok(c)
                && c.endpoint == u && c.mode == mode && c.policy == policy),
            endpoint is None ==> r == Err::<DriverConfig, DriverError>(
                DriverError::Configuration,
            ),
    {
        match endpoint {
            Option::Some(u) => Ok(DriverConfig { endpoint: u, mode, policy }),
            Option::None => Err(DriverError::Configuration),
        }
    }
}

/// The subscription driver proper: the state of the receive loop together
/// with its fixed mode and policy.
#[derive(Debug)]
pub struct Driver {
    pub state: DriverState,
    pub mode: SourceMode,
    pub policy: ResolutionPolicy,
}

impl Driver {
    /// A fresh driver about to establish its connection.
    pub fn new(config: &DriverConfig) -> (d: Driver)
        ensures
            d.state is Connecting,
            d.mode == config.mode,
            d.policy == config.policy,
    {
        Driver { state: DriverState::Connecting, mode: config.mode, policy: config.policy }
    }

    /// One turn of the receive loop: consumes the outcome of the last
    /// suspension point and answers with the next piece of outside work.
    /// The new state and the action are exactly what [`step_spec`] says.
    pub fn step(&mut self, e: Event) -> (a: Action)
        ensures
            final(self).mode == old(self).mode,
            final(self).policy == old(self).policy,
            final(self).state == step_spec(old(self).state, old(self).mode, old(self).policy, e).0,
            a == step_spec(old(self).state, old(self).mode, old(self).policy, e).1,
    {
        let (s2, a) = Driver::transition(self.state, self.mode, self.policy, e);
        self.state = s2;
        a
    }

    /// Executable twin of [`step_spec`].
    fn transition(
        s: DriverState,
        mode: SourceMode,
        policy: ResolutionPolicy,
        e: Event,
    ) -> (r: (DriverState, Action))
        ensures
            r == step_spec(s, mode, policy, e),
    {
        match (s, e) {
            (DriverState::Connecting, Event::ConnectOk) => match mode {
                SourceMode::Subscription => (DriverState::Subscribing, Action::Subscribe),
                SourceMode::Polling => (DriverState::PollRequesting, Action::RequestLatest),
            },
            (DriverState::Connecting, Event::ConnectFailed) => (
                DriverState::Stopped { error: Some(DriverError::Connection) },
                Action::Halt,
            ),
            (DriverState::Subscribing, Event::SubscribeOk) => (
                DriverState::Listening,
                Action::AwaitNotification,
            ),
            (DriverState::Subscribing, Event::SubscribeFailed) => (
                DriverState::Stopped { error: Some(DriverError::Subscription) },
                Action::Halt,
            ),
            (DriverState::Listening, Event::Notification { id }) => (
                DriverState::Fetching { id },
                Action::FetchBlock { id },
            ),
            (DriverState::Listening, Event::StreamEnded) => (
                DriverState::Stopped { error: None },
                Action::Halt,
            ),
            (DriverState::Fetching { .. }, Event::FetchOk { block }) => (
                DriverState::Sending,
                Action::SendRecord { block },
            ),
            (DriverState::Fetching { .. }, Event::FetchNotFound) => match policy {
                ResolutionPolicy::Skip => (DriverState::Listening, Action::AwaitNotification),
                ResolutionPolicy::Fatal => (
                    DriverState::Stopped { error: Some(DriverError::Resolution) },
                    Action::Halt,
                ),
            },
            (DriverState::Fetching { .. }, Event::FetchFailed) => (
                DriverState::Stopped { error: Some(DriverError::Connection) },
                Action::Halt,
            ),
            (DriverState::Sending, Event::SendCompleted) => match mode {
                SourceMode::Subscription => (DriverState::Listening, Action::AwaitNotification),
                SourceMode::Polling => (DriverState::PollRequesting, Action::RequestLatest),
            },
            (DriverState::Sending, Event::ChannelClosed) => (
                DriverState::Stopped { error: Some(DriverError::ChannelClosed) },
                Action::Halt,
            ),
            (DriverState::PollRequesting, Event::LatestNumber { id }) => (
                DriverState::PollFetching { id },
                Action::FetchBlock { id },
            ),
            (DriverState::PollRequesting, Event::LatestUnavailable) => (
                DriverState::PollRequesting,
                Action::RequestLatest,
            ),
            (DriverState::PollFetching { .. }, Event::FetchOk { block }) => (
                DriverState::Sending,
                Action::SendRecord { block },
            ),
            (DriverState::PollFetching { .. }, Event::FetchNotFound) => (
                DriverState::PollRequesting,
                Action::RequestLatest,
            ),
            (DriverState::PollFetching { .. }, Event::FetchFailed) => (
                DriverState::PollRequesting,
                Action::RequestLatest,
            ),
            (DriverState::Stopped { error }, _) => (
                DriverState::Stopped { error },
                Action::Halt,
            ),
            (other, _) => (other, Action::Wait),
        }
    }
}

} // verus!
