//! The feed ingestor: decoding upstream messages into samples, and the
//! connect / stream / back-off state machine that drives the connection.
use vstd::prelude::*;
use crate::decimal::{parse_price, price_of};
use crate::window::{kept, PriceWindow};

verus! {

#[verifier::external_type_specification]
#[verifier::external_body]
pub struct ExJsonValue(serde_json::Value);

#[verifier::external_type_specification]
#[verifier::external_body]
pub struct ExJsonError(serde_json::Error);

/// The key of the price in an upstream trade message.
pub const PRICE_KEY: &'static str = "p";

/// Whether `serde_json::from_str::<Value>` accepts the text.
pub uninterp spec fn is_json(s: Seq<char>) -> bool;

/// The string under `key` in the JSON object that `text` holds; `None` when
/// the text is not JSON, not an object, or has no string under `key`.
pub uninterp spec fn json_str_member(text: Seq<char>, key: Seq<char>) -> Option<Seq<char>>;

/// Relies on `serde_json::from_str::<serde_json::Value>`, `Value::get` and
/// `Value::as_str`: the string under `key` in the JSON object that `text`
/// holds. The result depends on the two texts alone; only a text that parses
/// can give one.
#[verifier::external_body]
fn json_string_member(text: &str, key: &str) -> (r: Option<String>)
    ensures
        r matches Some(t) ==> json_str_member(text@, key@) == Some(t@),
        r is None ==> json_str_member(text@, key@) is None,
        r is Some ==> is_json(text@),
{
    match serde_json::from_str::<serde_json::Value>(text) {
        Ok(v) => v.get(key).and_then(serde_json::Value::as_str).map(String::from),
        Err(_) => None,
    }
}

/// What a message does to the window at `now`: `Some(p)` when it holds a
/// price `p` under the price key, to be recorded; `None` when it is dropped.
pub open spec fn message_price(message: Seq<char>) -> Option<i64> {
    match json_str_member(message, PRICE_KEY@) {
        Some(t) => price_of(t),
        None => None,
    }
}

/// Records the price that `price_text` denotes at `now`, then evicts the
/// samples outside the window. A text that is not a price changes nothing.
pub fn record_price_text(price_text: &str, window: &mut PriceWindow, window_seconds: u64, now: u64) -> (r: bool)
    ensures
        r == (price_of(price_text@) is Some),
        price_of(price_text@) is None ==> final(window)@ == old(window)@,
        price_of(price_text@) matches Some(p)
            ==> final(window)@ == kept(old(window)@.push((now, p)), now, window_seconds),
{
    match parse_price(price_text) {
        Some(price) => {
            window.record(now, price);
            window.retain_within(now, window_seconds);
            true
        },
        None => false,
    }
}

/// Decodes an upstream message and records its price at `now`, evicting
/// what falls outside the window. A message that is not JSON, has no string
/// under the price key, or whose price is not a decimal is dropped and
/// changes nothing. As `parse_price` says, a price written as `NaN`, `inf` or
/// with an exponent is not a decimal: such a message is dropped too.
pub fn on_message(message: &str, window: &mut PriceWindow, window_seconds: u64, now: u64) -> (r: bool)
    ensures
        r == (message_price(message@) is Some),
        !is_json(message@) ==> !r,
        message_price(message@) is None ==> final(window)@ == old(window)@,
        message_price(message@) matches Some(p)
            ==> final(window)@ == kept(old(window)@.push((now, p)), now, window_seconds),
{
    match json_string_member(message, PRICE_KEY) {
        Some(text) => record_price_text(text.as_str(), window, window_seconds, now),
        None => false,
    }
}

/// Seconds to wait before connecting again after a failure.
pub const BACKOFF_SECONDS: u64 = 5;

/// Seconds to wait for the next upstream message before giving up on the connection.
pub const READ_TIMEOUT_SECONDS: u64 = 10;

/// Where the connection to the upstream feed stands.
#[derive(Clone, Copy, Debug, PartialEq, Eq, Structural)]
pub enum FeedState {
    /// Waiting out the back-off before the next attempt.
    Disconnected,
    /// An attempt to connect is under way.
    Connecting,
    /// Connected; waiting for messages.
    Streaming,
}

/// What the caller is to do next.
#[derive(Clone, Copy, Debug, PartialEq, Eq, Structural)]
pub enum FeedAction {
    /// Open a connection to the upstream feed.
    Connect,
    /// Sleep for this many seconds, then report `BackoffElapsed`.
    Sleep(u64),
    /// Wait at most this many seconds for the next message.
    Read(u64),
}

/// What happened since the last action.
#[derive(Clone, Debug)]
pub enum FeedEvent {
    BackoffElapsed,
    Connected,
    ConnectFailed,
    /// A text message arrived.
    Text(String),
    /// A message of another kind arrived.
    OtherMessage,
    ReadFailed,
    TimedOut,
}

/// The action that a state waits on.
pub open spec fn pending_action(s: FeedState) -> FeedAction {
    match s {
        FeedState::Disconnected => FeedAction::Sleep(BACKOFF_SECONDS),
        FeedState::Connecting => FeedAction::Connect,
        FeedState::Streaming => FeedAction::Read(READ_TIMEOUT_SECONDS),
    }
}

/// The next state: an event that the state does not wait on leaves it as it is.
pub open spec fn next_state(s: FeedState, e: FeedEvent) -> FeedState {
    match (s, e) {
        (FeedState::Disconnected, FeedEvent::BackoffElapsed) => FeedState::Connecting,
        (FeedState::Connecting, FeedEvent::Connected) => FeedState::Streaming,
        (FeedState::Connecting, FeedEvent::ConnectFailed) => FeedState::Disconnected,
        (FeedState::Streaming, FeedEvent::Text(_)) => FeedState::Streaming,
        (FeedState::Streaming, FeedEvent::OtherMessage) => FeedState::Disconnected,
        (FeedState::Streaming, FeedEvent::ReadFailed) => FeedState::Disconnected,
        (FeedState::Streaming, FeedEvent::TimedOut) => FeedState::Disconnected,
        _ => s,
    }
}

fn pending_action_exec(s: FeedState) -> (r: FeedAction)
    ensures
        r == pending_action(s),
{
    match s {
        FeedState::Disconnected => FeedAction::Sleep(BACKOFF_SECONDS),
        FeedState::Connecting => FeedAction::Connect,
        FeedState::Streaming => FeedAction::Read(READ_TIMEOUT_SECONDS),
    }
}

/// The ingestion loop's decisions; the caller performs the actions and
/// reports what came of them.
pub struct Ingestor {
    state: FeedState,
    window_seconds: u64,
}

impl Ingestor {
    /// A new ingestor starts by connecting.
    pub fn new(window_seconds: u64) -> (r: Ingestor)
        ensures
            r.state() == FeedState::Connecting,
            r.window_seconds() == window_seconds,
    {
        Ingestor { state: FeedState::Connecting, window_seconds }
    }

    pub closed spec fn state(&self) -> FeedState {
        self.state
    }

    pub closed spec fn window_seconds(&self) -> u64 {
        self.window_seconds
    }

    pub fn current_state(&self) -> (r: FeedState)
        ensures
            r == self.state(),
    {
        self.state
    }

    /// The action that the current state waits on.
    pub fn action(&self) -> (r: FeedAction)
        ensures
            r == pending_action(self.state()),
    {
        pending_action_exec(self.state)
    }

    /// Takes an event at time `now`: moves to the next state and returns its
    /// action. A text message while streaming goes to `on_message`; no other
    /// event touches the window.
    pub fn step(&mut self, event: FeedEvent, now: u64, window: &mut PriceWindow) -> (r: FeedAction)
        ensures
            final(self).state() == next_state(old(self).state(), event),
            final(self).window_seconds() == old(self).window_seconds(),
            r == pending_action(final(self).state()),
            final(window)@ == match (old(self).state(), event) {
                (FeedState::Streaming, FeedEvent::Text(t)) => match message_price(t@) {
                    Some(p) => kept(old(window)@.push((now, p)), now, old(self).window_seconds()),
                    None => old(window)@,
                },
                _ => old(window)@,
            },
    {
        let ghost e = event;
        let next = match (self.state, event) {
            (FeedState::Disconnected, FeedEvent::BackoffElapsed) => FeedState::Connecting,
            (FeedState::Connecting, FeedEvent::Connected) => FeedState::Streaming,
            (FeedState::Connecting, FeedEvent::ConnectFailed) => FeedState::Disconnected,
            (FeedState::Streaming, FeedEvent::Text(text)) => {
                on_message(text.as_str(), window, self.window_seconds, now);
                FeedState::Streaming
            },
            (FeedState::Streaming, FeedEvent::OtherMessage) => FeedState::Disconnected,
            (FeedState::Streaming, FeedEvent::ReadFailed) => FeedState::Disconnected,
            (FeedState::Streaming, FeedEvent::TimedOut) => FeedState::Disconnected,
            (s, _) => s,
        };
        self.state = next;
        pending_action_exec(next)
    }
}

/// A text message, decodable or not, keeps the connection streaming and the
/// ingestor reading.
pub proof fn lemma_text_keeps_streaming(text: String)
    ensures
        next_state(FeedState::Streaming, FeedEvent::Text(text)) == FeedState::Streaming,
        pending_action(next_state(FeedState::Streaming, FeedEvent::Text(text)))
            == FeedAction::Read(READ_TIMEOUT_SECONDS),
{
}

/// A connection that fails while streaming is retried: first the back-off,
/// then a new attempt to connect.
pub proof fn lemma_failure_reconnects(e: FeedEvent)
    requires
        e is ReadFailed || e is TimedOut || e is OtherMessage,
    ensures
        next_state(FeedState::Streaming, e) == FeedState::Disconnected,
        pending_action(FeedState::Disconnected) == FeedAction::Sleep(BACKOFF_SECONDS),
        next_state(FeedState::Disconnected, FeedEvent::BackoffElapsed) == FeedState::Connecting,
        pending_action(FeedState::Connecting) == FeedAction::Connect,
{
}

} // verus!
