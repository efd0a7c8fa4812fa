//! What passes between the connection and its driver: the configuration it
//! is made with, the commands it issues and the outcomes it is told of.

use crate::error::{ConnectionError, ConnectionErrorView, Report, ReportView};
use crate::event::{StateChange, StateChangeView};
use crate::fields::{Fields, FieldsView};
use crate::frame::{Frame, FrameView};
use crate::views::{option_view, result_view};
use vstd::prelude::*;

verus! {

/// The endpoint that a connection registers with unless told otherwise.
pub const REGISTER_ENDPOINT: &'static str = "https://next-slide-please.com/register";

/// The seconds that a connection waits after a failure unless told otherwise.
pub const RETRY_DELAY_SECS: u64 = 1;

/// The content type of a registration request.
pub const REGISTRATION_CONTENT_TYPE: &'static str = "application/json";

/// The body of a registration request: an empty JSON object.
pub const REGISTRATION_BODY: &'static str = "{}";

/// What a connection is made with.
#[derive(Debug, PartialEq, Eq)]
pub struct Config {
    /// Where to register.
    pub register_endpoint: String,
    /// How long to wait after a failed attempt before the next one. The delay
    /// is the same after every failure.
    pub retry_delay_secs: u64,
}

/// Mathematical model of a [`Config`].
pub struct ConfigView {
    pub register_endpoint: Seq<char>,
    pub retry_delay_secs: nat,
}

impl View for Config {
    type V = ConfigView;

    open spec fn view(&self) -> ConfigView {
        ConfigView {
            register_endpoint: self.register_endpoint@,
            retry_delay_secs: self.retry_delay_secs as nat,
        }
    }
}

impl Clone for Config {
    fn clone(&self) -> (copy: Self)
        ensures
            copy == *self,
    {
        Config {
            register_endpoint: self.register_endpoint.clone(),
            retry_delay_secs: self.retry_delay_secs,
        }
    }
}

impl Default for Config {
    /// The standard endpoint and a delay of one second.
    fn default() -> (config: Self)
        ensures
            config@.register_endpoint == REGISTER_ENDPOINT@,
            config@.retry_delay_secs == RETRY_DELAY_SECS,
    {
        Config {
            register_endpoint: REGISTER_ENDPOINT.to_owned(),
            retry_delay_secs: RETRY_DELAY_SECS,
        }
    }
}

/// What the driver is to do next. The outcome of doing it is the next thing
/// the connection is told.
#[derive(Debug, PartialEq, Eq)]
pub enum Command {
    /// Post the body, under the content type, to the endpoint and decode the
    /// reply, a JSON object of strings, into its fields.
    Register { endpoint: String, content_type: String, body: String },
    /// Open the duplex stream at this address.
    Open { url: String },
    /// Send a text frame on the open stream.
    Send { text: String },
    /// Block until a frame arrives or the stream fails.
    Receive,
    /// Drop the stream, if any, and let the seconds pass.
    Wait { seconds: u64 },
    /// Drop the stream, if any, and stop.
    Halt,
}

/// Mathematical model of a [`Command`].
pub enum CommandView {
    Register { endpoint: Seq<char>, content_type: Seq<char>, body: Seq<char> },
    Open { url: Seq<char> },
    Send { text: Seq<char> },
    Receive,
    Wait { seconds: nat },
    Halt,
}

impl View for Command {
    type V = CommandView;

    open spec fn view(&self) -> CommandView {
        match self {
            Command::Register { endpoint, content_type, body } => CommandView::Register {
                endpoint: endpoint@,
                content_type: content_type@,
                body: body@,
            },
            Command::Open { url } => CommandView::Open { url: url@ },
            Command::Send { text } => CommandView::Send { text: text@ },
            Command::Receive => CommandView::Receive,
            Command::Wait { seconds } => CommandView::Wait { seconds: *seconds as nat },
            Command::Halt => CommandView::Halt,
        }
    }
}

/// What the driver tells the connection: how the last command went, or that
/// the consumer is gone.
#[derive(Debug)]
pub enum Outcome {
    /// The wait is over. This is also what sets an idle connection going.
    Elapsed,
    /// The backend's reply to a registration, decoded into its fields, or the
    /// cause for which none came.
    Registered(Result<Fields, String>),
    /// The stream was opened, or not.
    Opened(Result<(), ConnectionError>),
    /// The text frame was sent, or not.
    Sent(Result<(), ConnectionError>),
    /// A frame was received, or the stream failed.
    Received(Result<Frame, ConnectionError>),
    /// The connection is to stop.
    Cancelled,
}

/// Mathematical model of an [`Outcome`].
pub enum OutcomeView {
    Elapsed,
    Registered(Result<FieldsView, Seq<char>>),
    Opened(Result<(), ConnectionErrorView>),
    Sent(Result<(), ConnectionErrorView>),
    Received(Result<FrameView, ConnectionErrorView>),
    Cancelled,
}

impl View for Outcome {
    type V = OutcomeView;

    open spec fn view(&self) -> OutcomeView {
        match self {
            Outcome::Elapsed => OutcomeView::Elapsed,
            Outcome::Registered(reply) => OutcomeView::Registered(result_view(*reply)),
            Outcome::Opened(result) => OutcomeView::Opened(result_view(*result)),
            Outcome::Sent(result) => OutcomeView::Sent(result_view(*result)),
            Outcome::Received(result) => OutcomeView::Received(result_view(*result)),
            Outcome::Cancelled => OutcomeView::Cancelled,
        }
    }
}

/// What the connection answers an outcome with.
#[derive(Debug, PartialEq, Eq)]
pub struct Reaction {
    /// What the consumer is to be told, before the command is carried out.
    /// Notifications are the consumer's only view of the connection: a
    /// driver that cannot deliver one must not go on.
    pub notification: Option<StateChange>,
    /// What is worth a log line.
    pub report: Option<Report>,
    /// What the driver is to do next.
    pub command: Command,
}

/// Mathematical model of a [`Reaction`].
pub struct ReactionView {
    pub notification: Option<StateChangeView>,
    pub report: Option<ReportView>,
    pub command: CommandView,
}

impl View for Reaction {
    type V = ReactionView;

    open spec fn view(&self) -> ReactionView {
        ReactionView {
            notification: option_view(self.notification),
            report: option_view(self.report),
            command: self.command@,
        }
    }
}

} // verus!
