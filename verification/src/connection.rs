//! The connection state machine.
//!
//! One attempt runs: notify `Connecting`, register, open the stream, notify
//! `Connected`, send the secret, then read frames until the stream fails.
//! Every failure ends the attempt: the connection waits the retry delay and
//! starts over from registration. A session is never kept past its attempt.

use crate::address::{address_of, parse_url, parsed_url};
use crate::error::{
    ConnectionError, ConnectionErrorView, RegistrationError, RegistrationErrorView, Report,
    ReportView,
};
use crate::event::{StateChange, StateChangeView};
use crate::frame::{translate, translation, Frame, FrameView};
use crate::protocol::{
    Command, CommandView, Config, ConfigView, Outcome, OutcomeView, Reaction, ReactionView,
    REGISTRATION_BODY, REGISTRATION_CONTENT_TYPE,
};
use crate::session::{register, registration, Session, SessionView};
use crate::views::{option_view, result_view};
use vstd::prelude::*;

verus! {

/// Where a connection stands. Each phase but the first and the last has one
/// command pending, and goes on when told that command's outcome.
#[derive(Debug, PartialEq, Eq)]
pub enum Phase {
    /// Nothing has happened yet. `Elapsed` starts the first attempt.
    Idle,
    /// `Connecting` was notified; registration is pending.
    Registering,
    /// Registration gave a session; the stream is being opened.
    StreamOpening { session: Session },
    /// `Connected` was notified; the secret is being sent.
    Authenticating,
    /// The stream is live; a frame is awaited.
    Connected,
    /// The attempt failed; the retry delay is being waited.
    Failed,
    /// The connection was cancelled. It stays so.
    Stopped,
}

/// Mathematical model of a [`Phase`].
pub enum PhaseView {
    Idle,
    Registering,
    StreamOpening { session: SessionView },
    Authenticating,
    Connected,
    Failed,
    Stopped,
}

impl View for Phase {
    type V = PhaseView;

    open spec fn view(&self) -> PhaseView {
        match self {
            Phase::Idle => PhaseView::Idle,
            Phase::Registering => PhaseView::Registering,
            Phase::StreamOpening { session } => PhaseView::StreamOpening { session: session@ },
            Phase::Authenticating => PhaseView::Authenticating,
            Phase::Connected => PhaseView::Connected,
            Phase::Failed => PhaseView::Failed,
            Phase::Stopped => PhaseView::Stopped,
        }
    }
}

/// A step of the machine: the phase it leads to and the reaction it gives.
pub type Step = (PhaseView, ReactionView);

/// The attempt is abandoned: nothing is notified, the failure is reported,
/// and the retry delay is waited.
pub open spec fn abandoned(config: ConfigView, report: ReportView) -> Step {
    (
        PhaseView::Failed,
        ReactionView {
            notification: None,
            report: Some(report),
            command: CommandView::Wait { seconds: config.retry_delay_secs },
        },
    )
}

/// An attempt begins: `Connecting` is notified and registration is asked for,
/// by an empty JSON object sent to the configured endpoint.
pub open spec fn started(config: ConfigView) -> Step {
    (
        PhaseView::Registering,
        ReactionView {
            notification: Some(StateChangeView::Connecting),
            report: None,
            command: CommandView::Register {
                endpoint: config.register_endpoint,
                content_type: REGISTRATION_CONTENT_TYPE@,
                body: REGISTRATION_BODY@,
            },
        },
    )
}

/// The connection stops.
pub open spec fn stopped() -> Step {
    (
        PhaseView::Stopped,
        ReactionView { notification: None, report: None, command: CommandView::Halt },
    )
}

/// After registration, given what it came to and what URL parsing made of
/// the session's stream URL: a session whose URL parsed has its stream
/// opened at the parsed address; anything else ends the attempt.
pub open spec fn registered(
    config: ConfigView,
    registration: Result<SessionView, RegistrationErrorView>,
    parsed: Option<Seq<char>>,
) -> Step {
    match registration {
        Err(error) => abandoned(config, ReportView::Registration(error)),
        Ok(session) => match address_of(parsed) {
            Err(error) => abandoned(config, ReportView::Connection(error)),
            Ok(url) => (
                PhaseView::StreamOpening { session },
                ReactionView {
                    notification: None,
                    report: None,
                    command: CommandView::Open { url },
                },
            ),
        },
    }
}

/// After the handshake: an open stream is notified as `Connected`, with the
/// session's two URLs, and the session's secret is the first frame sent on it.
pub open spec fn opened(
    config: ConfigView,
    session: SessionView,
    result: Result<(), ConnectionErrorView>,
) -> Step {
    match result {
        Err(error) => abandoned(config, ReportView::Connection(error)),
        Ok(_) => (
            PhaseView::Authenticating,
            ReactionView {
                notification: Some(
                    StateChangeView::Connected {
                        websocket_url: session.websocket_url,
                        publish_url: session.publish_url,
                    },
                ),
                report: None,
                command: CommandView::Send { text: session.secret },
            },
        ),
    }
}

/// After the secret was sent: the connection starts to read.
pub open spec fn sent(config: ConfigView, result: Result<(), ConnectionErrorView>) -> Step {
    match result {
        Err(error) => abandoned(config, ReportView::Connection(error)),
        Ok(_) => (
            PhaseView::Connected,
            ReactionView { notification: None, report: None, command: CommandView::Receive },
        ),
    }
}

/// What a frame on the live stream is notified as: a command as its event,
/// anything else not at all.
pub open spec fn notification_of(frame: FrameView) -> Option<StateChangeView> {
    match translation(frame) {
        Some(event) => Some(StateChangeView::EventReceived(event)),
        None => None,
    }
}

/// What a frame on the live stream is reported as: one that is neither a
/// command nor a ping as unexpected, the others not at all.
pub open spec fn report_of(frame: FrameView) -> Option<ReportView> {
    if frame is Ping || translation(frame) is Some {
        None
    } else {
        Some(ReportView::UnexpectedFrame)
    }
}

/// After a read: a frame is notified and reported as it deserves and the
/// connection goes on reading; a failed stream ends the attempt.
pub open spec fn received(
    config: ConfigView,
    result: Result<FrameView, ConnectionErrorView>,
) -> Step {
    match result {
        Err(error) => abandoned(config, ReportView::Connection(error)),
        Ok(frame) => (
            PhaseView::Connected,
            ReactionView {
                notification: notification_of(frame),
                report: report_of(frame),
                command: CommandView::Receive,
            },
        ),
    }
}

/// What URL parsing makes of the stream URL of the session that a
/// registration gave, if it gave one.
pub open spec fn parsed_stream_url(
    registration: Result<SessionView, RegistrationErrorView>,
) -> Option<Seq<char>> {
    match registration {
        Ok(session) => parsed_url(session.websocket_url),
        Err(_) => None,
    }
}

/// The step that a phase takes on an outcome.
///
/// A stopped connection stays stopped, and cancelling stops any other. An
/// outcome that answers the pending command moves the attempt on or ends it.
/// Any other outcome is out of turn and ends the attempt.
pub open spec fn transition(config: ConfigView, phase: PhaseView, outcome: OutcomeView) -> Step {
    match (phase, outcome) {
        (PhaseView::Stopped, _) => stopped(),
        (_, OutcomeView::Cancelled) => stopped(),
        (PhaseView::Idle, OutcomeView::Elapsed) => started(config),
        (PhaseView::Failed, OutcomeView::Elapsed) => started(config),
        (PhaseView::Registering, OutcomeView::Registered(reply)) => registered(
            config,
            registration(reply),
            parsed_stream_url(registration(reply)),
        ),
        (PhaseView::StreamOpening { session }, OutcomeView::Opened(result)) => opened(
            config,
            session,
            result,
        ),
        (PhaseView::Authenticating, OutcomeView::Sent(result)) => sent(config, result),
        (PhaseView::Connected, OutcomeView::Received(result)) => received(config, result),
        _ => abandoned(config, ReportView::OutOfTurn),
    }
}

/// Mathematical model of a [`WebSocketConnection`].
pub struct ConnectionView {
    pub config: ConfigView,
    pub phase: PhaseView,
}

impl ConnectionView {
    /// The connection after it was told an outcome.
    pub open spec fn after(self, outcome: OutcomeView) -> ConnectionView {
        ConnectionView { config: self.config, phase: transition(self.config, self.phase, outcome).0 }
    }

    /// The reaction of the connection to an outcome.
    pub open spec fn reaction(self, outcome: OutcomeView) -> ReactionView {
        transition(self.config, self.phase, outcome).1
    }
}

/// Abandons the attempt.
fn abandon(config: &Config, report: Report) -> (step: (Phase, Reaction))
    ensures
        (step.0@, step.1@) == abandoned(config@, report@),
{
    (
        Phase::Failed,
        Reaction {
            notification: None,
            report: Some(report),
            command: Command::Wait { seconds: config.retry_delay_secs },
        },
    )
}

/// Begins an attempt.
fn start(config: &Config) -> (step: (Phase, Reaction))
    ensures
        (step.0@, step.1@) == started(config@),
{
    (
        Phase::Registering,
        Reaction {
            notification: Some(StateChange::Connecting),
            report: None,
            command: Command::Register {
                endpoint: config.register_endpoint.clone(),
                content_type: REGISTRATION_CONTENT_TYPE.to_owned(),
                body: REGISTRATION_BODY.to_owned(),
            },
        },
    )
}

/// Stops the connection.
fn stop() -> (step: (Phase, Reaction))
    ensures
        (step.0@, step.1@) == stopped(),
{
    (Phase::Stopped, Reaction { notification: None, report: None, command: Command::Halt })
}

/// Goes on after registration, given what it came to and what URL parsing
/// made of the session's stream URL.
pub fn on_registered(
    config: &Config,
    registration: Result<Session, RegistrationError>,
    parsed: Option<String>,
) -> (step: (Phase, Reaction))
    ensures
        (step.0@, step.1@) == registered(config@, result_view(registration), option_view(parsed)),
{
    match registration {
        Err(error) => abandon(config, Report::Registration(error)),
        Ok(session) => match parsed {
            None => abandon(config, Report::Connection(ConnectionError::InvalidUrl)),
            Some(url) => (
                Phase::StreamOpening { session },
                Reaction { notification: None, report: None, command: Command::Open { url } },
            ),
        },
    }
}

/// Goes on after the handshake.
pub fn on_opened(config: &Config, session: Session, result: Result<(), ConnectionError>) -> (step: (
    Phase,
    Reaction,
))
    ensures
        (step.0@, step.1@) == opened(config@, session@, result_view(result)),
{
    match result {
        Err(error) => abandon(config, Report::Connection(error)),
        Ok(_) => (
            Phase::Authenticating,
            Reaction {
                notification: Some(
                    StateChange::Connected {
                        websocket_url: session.websocket_url,
                        publish_url: session.publish_url,
                    },
                ),
                report: None,
                command: Command::Send { text: session.secret },
            },
        ),
    }
}

/// Goes on after the secret was sent.
pub fn on_sent(config: &Config, result: Result<(), ConnectionError>) -> (step: (Phase, Reaction))
    ensures
        (step.0@, step.1@) == sent(config@, result_view(result)),
{
    match result {
        Err(error) => abandon(config, Report::Connection(error)),
        Ok(_) => (
            Phase::Connected,
            Reaction { notification: None, report: None, command: Command::Receive },
        ),
    }
}

/// Goes on after a read.
pub fn on_received(config: &Config, result: Result<Frame, ConnectionError>) -> (step: (
    Phase,
    Reaction,
))
    ensures
        (step.0@, step.1@) == received(config@, result_view(result)),
{
    match result {
        Err(error) => abandon(config, Report::Connection(error)),
        Ok(frame) => {
            let (notification, report) = match translate(&frame) {
                Some(event) => (Some(StateChange::EventReceived(event)), None),
                None => match frame {
                    Frame::Ping => (None, None),
                    _ => (None, Some(Report::UnexpectedFrame)),
                },
            };
            (Phase::Connected, Reaction { notification, report, command: Command::Receive })
        },
    }
}

/// Takes the step of a phase on an outcome.
pub fn advance(config: &Config, phase: Phase, outcome: Outcome) -> (step: (Phase, Reaction))
    ensures
        (step.0@, step.1@) == transition(config@, phase@, outcome@),
{
    match phase {
        Phase::Stopped => stop(),
        Phase::Idle => match outcome {
            Outcome::Cancelled => stop(),
            Outcome::Elapsed => start(config),
            _ => abandon(config, Report::OutOfTurn),
        },
        Phase::Failed => match outcome {
            Outcome::Cancelled => stop(),
            Outcome::Elapsed => start(config),
            _ => abandon(config, Report::OutOfTurn),
        },
        Phase::Registering => match outcome {
            Outcome::Cancelled => stop(),
            Outcome::Registered(reply) => {
                let registration = register(reply);
                let parsed = match &registration {
                    Ok(session) => parse_url(session.websocket_url.as_str()),
                    Err(_) => None,
                };
                on_registered(config, registration, parsed)
            },
            _ => abandon(config, Report::OutOfTurn),
        },
        Phase::StreamOpening { session } => match outcome {
            Outcome::Cancelled => stop(),
            Outcome::Opened(result) => on_opened(config, session, result),
            _ => abandon(config, Report::OutOfTurn),
        },
        Phase::Authenticating => match outcome {
            Outcome::Cancelled => stop(),
            Outcome::Sent(result) => on_sent(config, result),
            _ => abandon(config, Report::OutOfTurn),
        },
        Phase::Connected => match outcome {
            Outcome::Cancelled => stop(),
            Outcome::Received(result) => on_received(config, result),
            _ => abandon(config, Report::OutOfTurn),
        },
    }
}

/// The lifecycle of one connection to the backend, as a machine that a driver
/// runs: the driver tells it the outcome of the last command, delivers the
/// notification it answers with, and carries out the next command.
///
/// Every attempt registers anew: the session of an attempt is held while its
/// stream is being opened and is given up with the `Connected` notification.
#[derive(Debug)]
pub struct WebSocketConnection {
    config: Config,
    phase: Phase,
}

impl View for WebSocketConnection {
    type V = ConnectionView;

    closed spec fn view(&self) -> ConnectionView {
        ConnectionView { config: self.config@, phase: self.phase@ }
    }
}

impl WebSocketConnection {
    /// An idle connection.
    pub fn new(config: Config) -> (connection: Self)
        ensures
            connection@ == (ConnectionView { config: config@, phase: PhaseView::Idle }),
    {
        WebSocketConnection { config, phase: Phase::Idle }
    }

    /// What the connection was made with.
    pub fn config(&self) -> (config: &Config)
        ensures
            config@ == self@.config,
    {
        &self.config
    }

    /// Where the connection stands.
    pub fn phase(&self) -> (phase: &Phase)
        ensures
            phase@ == self@.phase,
    {
        &self.phase
    }

    /// Tells the connection an outcome and gets its reaction.
    pub fn step(&mut self, outcome: Outcome) -> (reaction: Reaction)
        ensures
            final(self)@ == old(self)@.after(outcome@),
            reaction@ == old(self)@.reaction(outcome@),
    {
        let mut phase = Phase::Stopped;
        core::mem::swap(&mut self.phase, &mut phase);
        let (next, reaction) = advance(&self.config, phase, outcome);
        self.phase = next;
        reaction
    }
}

} // verus!
