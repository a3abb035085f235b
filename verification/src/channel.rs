//! The channel to the control server: a connection that is made again
//! whenever it fails, for as long as the program lives.
//!
//! The program connects, reads and waits; the channel says what comes next.
//! Each outcome of what the program did is an event, and each event gets one
//! action in answer.

use crate::decimal::{decimal, spec_decimal};
use url::Url;
use vstd::prelude::*;
use vstd::string::StringExecFns;

verus! {

/// `url::Url`, taken as it is: contracts speak of it through `url_text`.
#[verifier::external_type_specification]
#[verifier::external_body]
pub struct ExUrl(url::Url);

/// Milliseconds to wait after a failure before the next attempt to connect.
pub const BACKOFF_MILLIS: u64 = 1000;

/// The state of the connection.
#[derive(Clone, Copy, Debug, PartialEq, Eq, Structural)]
pub enum ChannelConnection {
    /// There is no connection.
    Disconnected,
    /// The connection stands and nothing has been read from it yet.
    Connected,
    /// The connection stands and frames have been read from it.
    Reading,
}

/// What came of the last action.
#[derive(Clone, Debug, PartialEq, Eq)]
pub enum ChannelEvent {
    /// The attempt to connect succeeded.
    ConnectSucceeded,
    /// The attempt to connect failed.
    ConnectFailed,
    /// A text frame was read.
    Text(String),
    /// A frame that is no text was read.
    OtherFrame,
    /// Reading failed, or the server closed the connection.
    ReadFailed,
}

/// What the program does next.
#[derive(Clone, Debug, PartialEq, Eq)]
pub enum ChannelAction {
    /// Try to connect.
    Connect,
    /// Wait so many milliseconds, then try to connect.
    BackOffThenConnect(u64),
    /// Wait for the next frame.
    Read,
    /// Hand the text to whoever takes the messages, then wait for the next frame.
    DeliverThenRead(String),
}

/// The state after an event, and the action that answers it.
///
/// A failure, of connecting or of reading, leads to `Disconnected` and to a
/// new attempt after the backoff. A frame leads to `Reading`. An event that
/// the state does not wait for changes nothing, and the action that the
/// state waits on is asked for again.
pub open spec fn spec_step(state: ChannelConnection, event: ChannelEvent) -> (
    ChannelConnection,
    ChannelAction,
) {
    match state {
        ChannelConnection::Disconnected => match event {
            ChannelEvent::ConnectSucceeded => (ChannelConnection::Connected, ChannelAction::Read),
            ChannelEvent::ConnectFailed => (
                ChannelConnection::Disconnected,
                ChannelAction::BackOffThenConnect(BACKOFF_MILLIS),
            ),
            _ => (ChannelConnection::Disconnected, ChannelAction::Connect),
        },
        _ => match event {
            ChannelEvent::Text(text) => (
                ChannelConnection::Reading,
                ChannelAction::DeliverThenRead(text),
            ),
            ChannelEvent::OtherFrame => (ChannelConnection::Reading, ChannelAction::Read),
            ChannelEvent::ReadFailed => (
                ChannelConnection::Disconnected,
                ChannelAction::BackOffThenConnect(BACKOFF_MILLIS),
            ),
            _ => (state, ChannelAction::Read),
        },
    }
}

/// The state after a run of events, and the actions that answered them, in order.
pub open spec fn spec_run(state: ChannelConnection, events: Seq<ChannelEvent>) -> (
    ChannelConnection,
    Seq<ChannelAction>,
)
    decreases events.len(),
{
    if events.len() == 0 {
        (state, Seq::<ChannelAction>::empty())
    } else {
        let (before, actions) = spec_run(state, events.drop_last());
        let (after, action) = spec_step(before, events.last());
        (after, actions.push(action))
    }
}

/// The channel.
#[derive(Clone, Copy, Debug, PartialEq, Eq, Structural)]
pub struct Channel {
    pub state: ChannelConnection,
}

impl Channel {
    /// A channel without a connection.
    pub fn new() -> (r: Channel)
        ensures
            r.state == ChannelConnection::Disconnected,
    {
        Channel { state: ChannelConnection::Disconnected }
    }

    /// The state of the connection.
    pub fn state(&self) -> (r: ChannelConnection)
        ensures
            r == self.state,
    {
        self.state
    }

    /// The first action of a channel: to connect.
    pub fn start(&self) -> (r: ChannelAction)
        ensures
            r == ChannelAction::Connect,
    {
        ChannelAction::Connect
    }

    /// Takes the outcome of the last action and says what comes next.
    pub fn step(&mut self, event: &ChannelEvent) -> (action: ChannelAction)
        ensures
            (final(self).state, action) == spec_step(old(self).state, *event),
    {
        match self.state {
            ChannelConnection::Disconnected => match event {
                ChannelEvent::ConnectSucceeded => {
                    self.state = ChannelConnection::Connected;
                    ChannelAction::Read
                },
                ChannelEvent::ConnectFailed => ChannelAction::BackOffThenConnect(BACKOFF_MILLIS),
                _ => ChannelAction::Connect,
            },
            _ => match event {
                ChannelEvent::Text(text) => {
                    self.state = ChannelConnection::Reading;
                    ChannelAction::DeliverThenRead(text.clone())
                },
                ChannelEvent::OtherFrame => {
                    self.state = ChannelConnection::Reading;
                    ChannelAction::Read
                },
                ChannelEvent::ReadFailed => {
                    self.state = ChannelConnection::Disconnected;
                    ChannelAction::BackOffThenConnect(BACKOFF_MILLIS)
                },
                _ => ChannelAction::Read,
            },
        }
    }

    /// Takes a run of outcomes, one after the other, and returns the action
    /// that answered each.
    pub fn run(&mut self, events: &Vec<ChannelEvent>) -> (actions: Vec<ChannelAction>)
        ensures
            (final(self).state, actions@) == spec_run(old(self).state, events@),
    {
        let mut actions: Vec<ChannelAction> = Vec::new();
        let mut i: usize = 0;
        while i < events.len()
            invariant
                i <= events.len(),
                (self.state, actions@) == spec_run(old(self).state, events@.take(i as int)),
            decreases events.len() - i,
        {
            proof {
                assert(events@.take(i + 1).drop_last() == events@.take(i as int));
            }
            let action = self.step(&events[i]);
            actions.push(action);
            i += 1;
        }
        proof {
            assert(events@.take(events.len() as int) == events@);
        }
        actions
    }
}

/// So many failures to connect.
pub open spec fn failed_attempts(n: nat) -> Seq<ChannelEvent> {
    Seq::new(n, |i: int| ChannelEvent::ConnectFailed)
}

/// So many new attempts, each after the backoff.
pub open spec fn backoffs(n: nat) -> Seq<ChannelAction> {
    Seq::new(n, |i: int| ChannelAction::BackOffThenConnect(BACKOFF_MILLIS))
}

/// A channel without a connection whose attempts fail `n` times stays
/// without one and backs off `n` times, once after each failure.
pub proof fn lemma_failures_back_off(n: nat)
    ensures
        spec_run(ChannelConnection::Disconnected, failed_attempts(n)) == (
            ChannelConnection::Disconnected,
            backoffs(n),
        ),
    decreases n,
{
    if n == 0 {
        assert(backoffs(0) =~= Seq::<ChannelAction>::empty());
    } else {
        lemma_failures_back_off((n - 1) as nat);
        assert(failed_attempts(n).drop_last() =~= failed_attempts((n - 1) as nat));
        assert(backoffs(n) =~= backoffs((n - 1) as nat).push(
            ChannelAction::BackOffThenConnect(BACKOFF_MILLIS),
        ));
    }
}

/// A channel whose attempts fail `n` times and then succeed backs off `n`
/// times, once after each failure and for one second each, and after the
/// success goes on to read at once: the success is answered by `Read`, and
/// with the first frame the channel is `Reading`.
pub proof fn lemma_reconnect(n: nat, frame: ChannelEvent)
    requires
        frame is Text || frame is OtherFrame,
    ensures
        spec_run(
            ChannelConnection::Disconnected,
            failed_attempts(n).push(ChannelEvent::ConnectSucceeded),
        ) == (ChannelConnection::Connected, backoffs(n).push(ChannelAction::Read)),
        spec_run(
            ChannelConnection::Disconnected,
            failed_attempts(n).push(ChannelEvent::ConnectSucceeded).push(frame),
        ).0 == ChannelConnection::Reading,
        BACKOFF_MILLIS == 1000,
{
    lemma_failures_back_off(n);
    let connected = failed_attempts(n).push(ChannelEvent::ConnectSucceeded);
    assert(connected.drop_last() =~= failed_attempts(n));
    assert(spec_run(ChannelConnection::Disconnected, connected).0 == ChannelConnection::Connected);
    let framed = connected.push(frame);
    assert(framed.drop_last() =~= connected);
    assert(spec_run(ChannelConnection::Disconnected, framed).0 == spec_step(
        ChannelConnection::Connected,
        frame,
    ).0);
}

/// Text frames, one for each text.
pub open spec fn text_frames(texts: Seq<String>) -> Seq<ChannelEvent> {
    Seq::new(texts.len(), |i: int| ChannelEvent::Text(texts[i]))
}

/// Deliveries, one for each text.
pub open spec fn deliveries(texts: Seq<String>) -> Seq<ChannelAction> {
    Seq::new(texts.len(), |i: int| ChannelAction::DeliverThenRead(texts[i]))
}

/// Messages keep their order: over a standing connection each text frame is
/// answered by the delivery of its own text, one delivery for each frame, in
/// the order in which the frames came.
pub proof fn lemma_messages_keep_their_order(state: ChannelConnection, texts: Seq<String>)
    requires
        state != ChannelConnection::Disconnected,
    ensures
        spec_run(state, text_frames(texts)).1 == deliveries(texts),
        texts.len() > 0 ==> spec_run(state, text_frames(texts)).0 == ChannelConnection::Reading,
        texts.len() == 0 ==> spec_run(state, text_frames(texts)).0 == state,
    decreases texts.len(),
{
    if texts.len() == 0 {
        assert(deliveries(texts) =~= Seq::<ChannelAction>::empty());
    } else {
        let front = texts.drop_last();
        lemma_messages_keep_their_order(state, front);
        assert(text_frames(texts).drop_last() =~= text_frames(front));
        assert(deliveries(texts) =~= deliveries(front).push(
            ChannelAction::DeliverThenRead(texts.last()),
        ));
    }
}

/// The address of the control server on this machine.
pub open spec fn spec_endpoint(port: u16) -> Seq<char> {
    "ws://localhost:"@ + spec_decimal(port as nat) + "/ws"@
}

/// The address of the control server on this machine: `ws://localhost:`,
/// the port, and `/ws`.
pub fn endpoint(port: u16) -> (r: String)
    ensures
        r@ == spec_endpoint(port),
{
    let mut address = String::from_str("ws://localhost:");
    let digits = decimal(port as u64);
    address.append(digits.as_str());
    address.append("/ws");
    address
}

/// The text of a URL.
pub uninterp spec fn url_text(url: Url) -> Seq<char>;

/// The text of the URL that `Url::parse` reads from a text, `None` where it
/// rejects the text.
pub uninterp spec fn parsed_url(text: Seq<char>) -> Option<Seq<char>>;

/// `Url::parse`. Trusted: the URL that it returns is the one that
/// `parsed_url` names for this text, and it returns none where that names none.
#[verifier::external_body]
fn parse_url(text: &str) -> (r: Option<Url>)
    ensures
        match r {
            Some(url) => parsed_url(text@) == Some(url_text(url)),
            None => parsed_url(text@) is None,
        },
{
    Url::parse(text).ok()
}

/// The URL of the control server on this machine, `None` where the address
/// is no URL.
pub fn endpoint_url(port: u16) -> (r: Option<Url>)
    ensures
        match r {
            Some(url) => parsed_url(spec_endpoint(port)) == Some(url_text(url)),
            None => parsed_url(spec_endpoint(port)) is None,
        },
{
    let address = endpoint(port);
    parse_url(address.as_str())
}

} // verus!
