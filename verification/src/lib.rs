//! Client runtime for Slack's real-time messaging protocol: the handshake that
//! turns a token into a session, the decoding and dispatch of inbound frames,
//! and the relay that queues outbound Web API calls.

pub mod json;
pub mod types;
pub mod event;
pub mod rtm;
pub mod api;
pub mod reactions;
pub mod chat;
pub mod conversations;
pub mod relay;
pub mod handler;

pub use api::{PostRequest, SlackWebAPI, SlackWebApiCall};
pub use event::{DecodeFailure, Event, MessageEvent};
pub use handler::{launch_rtm, Dispatch, Frame, Session, SlackBotLogic, SlackRtmHandler};
pub use relay::{
    AsyncSlackApiSender, CallOutcome, GenericResult, QueueClosed, RelayAction, RelayEvent,
    RelayHandle, RelayQueue, RelayWorker, WorkerStep,
};
pub use rtm::HandshakeError;
pub use types::{ConnectionAccountInfo, TeamInfo};
