//! The inbound side of a session: each frame of the socket is decoded and,
//! where it is a message, handed to the bot's logic.

use vstd::prelude::*;
use crate::event::{event_of_text, DecodeFailure, Event, EventView, MessageEvent, MessageEventView};
use crate::relay::{AsyncSlackApiSender, RelayWorker};
use crate::rtm::{
    connect, exchange_view, outcome_of_exchange, ConnectResponseView, HandshakeError,
    HandshakeErrorView,
};
use crate::types::{ConnectionAccountInfo, TeamInfo};

verus! {

/// What a bot does. The engine launches it once per session, with the handle
/// to send calls through and the identities it runs under, and then hands it
/// every message, one at a time and in the order of arrival.
pub trait SlackBotLogic: Sized {
    /// Builds the bot's state at the start of a session.
    fn launch(api: AsyncSlackApiSender, botinfo: &ConnectionAccountInfo, teaminfo: &TeamInfo) -> Self;

    /// Reacts to a message. The default does nothing.
    fn on_message(&mut self, event: MessageEvent) {
    }
}

/// One frame of the session socket.
#[derive(Debug, Clone, PartialEq, Eq)]
pub enum Frame {
    Text(String),
    Binary(Vec<u8>),
}

pub enum FrameView {
    Text(Seq<char>),
    Binary(Seq<u8>),
}

impl View for Frame {
    type V = FrameView;

    open spec fn view(&self) -> FrameView {
        match self {
            Frame::Text(text) => FrameView::Text(text@),
            Frame::Binary(bytes) => FrameView::Binary(bytes@),
        }
    }
}

/// What was done about a frame. None of these ends the session.
#[derive(Debug, Clone, Copy, PartialEq, Eq)]
pub enum Dispatch {
    /// The session is live.
    Hello,
    /// A message went to the bot's logic.
    Delivered,
    /// A text frame that decodes to no event; it was skipped.
    UnknownEvent(DecodeFailure),
    /// A frame that is not text; it was skipped.
    Unsupported,
}

/// What is done about a frame.
pub open spec fn dispatch_of(frame: FrameView) -> Dispatch {
    match frame {
        FrameView::Text(text) => match event_of_text(text) {
            Ok(EventView::Hello) => Dispatch::Hello,
            Ok(EventView::Message { data }) => Dispatch::Delivered,
            Err(failure) => Dispatch::UnknownEvent(failure),
        },
        FrameView::Binary(_) => Dispatch::Unsupported,
    }
}

/// The messages handed to the logic once `frame` is dealt with, given those
/// handed over before: one more where the frame is a message, else the same.
pub open spec fn delivered_after(before: Seq<MessageEventView>, frame: FrameView) -> Seq<
    MessageEventView,
> {
    match frame {
        FrameView::Text(text) => match event_of_text(text) {
            Ok(EventView::Message { data }) => before.push(data),
            _ => before,
        },
        FrameView::Binary(_) => before,
    }
}

/// The messages handed to the logic once `frames` are dealt with in order.
pub open spec fn delivered_after_all(before: Seq<MessageEventView>, frames: Seq<FrameView>) -> Seq<
    MessageEventView,
>
    decreases frames.len(),
{
    if frames.len() == 0 {
        before
    } else {
        delivered_after(delivered_after_all(before, frames.drop_last()), frames.last())
    }
}

/// The inbound side of one session: it owns the bot's logic.
pub struct SlackRtmHandler<Logic: SlackBotLogic> {
    logic: Logic,
    delivered: Ghost<Seq<MessageEventView>>,
}

impl<Logic: SlackBotLogic> SlackRtmHandler<Logic> {
    /// The messages handed to the logic so far, oldest first.
    pub closed spec fn delivered(&self) -> Seq<MessageEventView> {
        self.delivered@
    }

    /// The bot's logic, as a value.
    pub closed spec fn logic_value(&self) -> Logic {
        self.logic
    }

    /// A handler around freshly launched logic; no frame has been seen.
    pub fn new(logic: Logic) -> (handler: Self)
        ensures
            handler.logic_value() == logic,
            handler.delivered() == Seq::<MessageEventView>::empty(),
    {
        SlackRtmHandler { logic, delivered: Ghost(Seq::empty()) }
    }

    /// The bot's logic.
    pub fn logic(&self) -> (logic: &Logic)
        ensures
            *logic == self.logic_value(),
    {
        &self.logic
    }

    /// Deals with one frame. A message is handed to the logic, once; a hello
    /// is noted; anything else is skipped. Whatever the frame holds, the
    /// handler is ready for the next.
    pub fn on_message(&mut self, msg: Frame) -> (done: Dispatch)
        ensures
            done == dispatch_of(msg@),
            final(self).delivered() == delivered_after(old(self).delivered(), msg@),
            !(dispatch_of(msg@) is Delivered) ==> final(self).logic_value() == old(self).logic_value(),
            dispatch_of(msg@) is Delivered ==> exists|target: &mut Logic, data: MessageEvent|
                {
                    &&& *target == old(self).logic_value()
                    &&& *final(target) == final(self).logic_value()
                    &&& delivered_after(old(self).delivered(), msg@) == old(self).delivered().push(
                        data@,
                    )
                    &&& #[trigger] call_ensures(Logic::on_message, (target, data), ())
                },
    {
        match msg {
            Frame::Text(text) => match Event::decode(text.as_str()) {
                Ok(Event::Hello) => Dispatch::Hello,
                Ok(Event::Message { data }) => {
                    proof {
                        self.delivered@ = self.delivered@.push(data@);
                    }
                    self.logic.on_message(data);
                    Dispatch::Delivered
                },
                Err(failure) => Dispatch::UnknownEvent(failure),
            },
            Frame::Binary(_) => Dispatch::Unsupported,
        }
    }
}

/// A session that is ready to run: the socket to open, the handler for its
/// frames, and the worker of the relay the logic sends through.
pub struct Session<Logic: SlackBotLogic> {
    pub url: String,
    pub handler: SlackRtmHandler<Logic>,
    pub worker: RelayWorker,
}

/// What a launch comes to, seen from outside: the socket URL, or the error.
pub open spec fn launch_view<Logic: SlackBotLogic>(
    launched: Result<Session<Logic>, HandshakeError>,
) -> Result<Seq<char>, HandshakeErrorView> {
    match launched {
        Ok(session) => Ok(session.url@),
        Err(error) => Err(error@),
    }
}

/// The socket URL a handshake grants, or the error it ends in.
pub open spec fn url_of_outcome(outcome: Result<ConnectResponseView, HandshakeErrorView>) -> Result<
    Seq<char>,
    HandshakeErrorView,
> {
    match outcome {
        Ok(session) => Ok(session.url),
        Err(error) => Err(error),
    }
}

/// Starts a session from the handshake's round trip: `exchange` is the body
/// of the reply to a GET of `connect_url(api_token)`, or what kept it from
/// arriving.
///
/// Where the handshake grants a session, the relay is made and the logic is
/// launched with its handle and the identities of the reply, before any frame
/// is looked at. Where it does not, the error comes back and nothing is made.
pub fn launch_rtm<L: SlackBotLogic>(api_token: String, exchange: Result<String, String>) -> (launched:
    Result<Session<L>, HandshakeError>)
    ensures
        launch_view(launched) == url_of_outcome(outcome_of_exchange(exchange_view(exchange))),
        launched matches Ok(session) ==> {
            &&& session.handler.delivered() == Seq::<MessageEventView>::empty()
            &&& session.worker.token() == api_token@
            &&& exists|api: AsyncSlackApiSender, account: ConnectionAccountInfo, team: TeamInfo|
                {
                    &&& api.tok@ == api_token@
                    &&& outcome_of_exchange(exchange_view(exchange)) matches Ok(granted)
                    &&& account@ == granted.self_
                    &&& team@ == granted.team
                    &&& #[trigger] call_ensures(
                        L::launch,
                        (api, &account, &team),
                        session.handler.logic_value(),
                    )
                }
        },
{
    match connect(exchange) {
        Ok(granted) => {
            let (sender, worker) = AsyncSlackApiSender::new(api_token);
            let logic = L::launch(sender, &granted.self_, &granted.team);
            Ok(Session { url: granted.url, handler: SlackRtmHandler::new(logic), worker })
        },
        Err(error) => Err(error),
    }
}

/// Frames that decode to no event do not disturb the ones that follow: after
/// a text frame that is no event and then a message frame, exactly that
/// message has been added to what the logic was handed.
pub proof fn lemma_message_after_malformed_is_delivered(
    before: Seq<MessageEventView>,
    malformed: Seq<char>,
    valid: Seq<char>,
    data: MessageEventView,
)
    requires
        event_of_text(malformed) is Err,
        event_of_text(valid) == Ok::<EventView, DecodeFailure>(EventView::Message { data }),
    ensures
        dispatch_of(FrameView::Text(malformed)) is UnknownEvent,
        delivered_after_all(before, seq![FrameView::Text(malformed), FrameView::Text(valid)])
            == before.push(data),
{
    let frames = seq![FrameView::Text(malformed), FrameView::Text(valid)];
    let first = seq![FrameView::Text(malformed)];
    assert(frames.drop_last() =~= first);
    assert(first.drop_last() =~= Seq::<FrameView>::empty());
    assert(delivered_after_all(before, first.drop_last()) == before);
    assert(delivered_after_all(before, first) == delivered_after(before, first.last()));
    assert(delivered_after_all(before, frames) == delivered_after(
        delivered_after_all(before, first),
        frames.last(),
    ));
}

/// A frame is delivered exactly where it adds one message to what the logic
/// was handed; any other frame leaves that as it was.
pub proof fn lemma_every_frame_is_handled(before: Seq<MessageEventView>, frame: FrameView)
    ensures
        dispatch_of(frame) is Delivered <==> delivered_after(before, frame).len() == before.len() + 1,
        !(dispatch_of(frame) is Delivered) ==> delivered_after(before, frame) == before,
        delivered_after(before, frame).len() >= before.len(),
{
}

} // verus!
