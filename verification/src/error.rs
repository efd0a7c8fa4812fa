//! The ways an attempt can fail, and what a step reports of them.

use vstd::prelude::*;

verus! {

/// Why registration with the backend failed.
#[derive(Debug, PartialEq, Eq)]
pub enum RegistrationError {
    /// The request did not get through, or the reply could not be read.
    Transport(String),
    /// The reply lacks the named field.
    MissingField(String),
}

/// Mathematical model of a [`RegistrationError`].
pub enum RegistrationErrorView {
    Transport(Seq<char>),
    MissingField(Seq<char>),
}

impl View for RegistrationError {
    type V = RegistrationErrorView;

    open spec fn view(&self) -> RegistrationErrorView {
        match self {
            RegistrationError::Transport(cause) => RegistrationErrorView::Transport(cause@),
            RegistrationError::MissingField(name) => RegistrationErrorView::MissingField(name@),
        }
    }
}

impl Clone for RegistrationError {
    fn clone(&self) -> (copy: Self)
        ensures
            copy == *self,
    {
        match self {
            RegistrationError::Transport(cause) => RegistrationError::Transport(cause.clone()),
            RegistrationError::MissingField(name) => RegistrationError::MissingField(name.clone()),
        }
    }
}

/// Why the duplex stream could not be opened or used.
#[derive(Debug, PartialEq, Eq)]
pub enum ConnectionError {
    /// The stream address is not a URL.
    InvalidUrl,
    /// The transport handshake failed.
    HandshakeFailed(String),
    /// The stream was closed or broke.
    Closed(String),
}

/// Mathematical model of a [`ConnectionError`].
pub enum ConnectionErrorView {
    InvalidUrl,
    HandshakeFailed(Seq<char>),
    Closed(Seq<char>),
}

impl View for ConnectionError {
    type V = ConnectionErrorView;

    open spec fn view(&self) -> ConnectionErrorView {
        match self {
            ConnectionError::InvalidUrl => ConnectionErrorView::InvalidUrl,
            ConnectionError::HandshakeFailed(cause) => ConnectionErrorView::HandshakeFailed(cause@),
            ConnectionError::Closed(cause) => ConnectionErrorView::Closed(cause@),
        }
    }
}

impl Clone for ConnectionError {
    fn clone(&self) -> (copy: Self)
        ensures
            copy == *self,
    {
        match self {
            ConnectionError::InvalidUrl => ConnectionError::InvalidUrl,
            ConnectionError::HandshakeFailed(cause) => ConnectionError::HandshakeFailed(
                cause.clone(),
            ),
            ConnectionError::Closed(cause) => ConnectionError::Closed(cause.clone()),
        }
    }
}

/// What a step found worth a log line. None of it reaches the consumer.
#[derive(Debug, PartialEq, Eq)]
pub enum Report {
    /// Registration failed; the attempt is abandoned.
    Registration(RegistrationError),
    /// The stream failed; the attempt is abandoned.
    Connection(ConnectionError),
    /// A frame that is neither a command nor a ping was ignored.
    UnexpectedFrame,
    /// The outcome does not answer the command that was pending; the attempt
    /// is abandoned.
    OutOfTurn,
}

/// Mathematical model of a [`Report`].
pub enum ReportView {
    Registration(RegistrationErrorView),
    Connection(ConnectionErrorView),
    UnexpectedFrame,
    OutOfTurn,
}

impl View for Report {
    type V = ReportView;

    open spec fn view(&self) -> ReportView {
        match self {
            Report::Registration(error) => ReportView::Registration(error@),
            Report::Connection(error) => ReportView::Connection(error@),
            Report::UnexpectedFrame => ReportView::UnexpectedFrame,
            Report::OutOfTurn => ReportView::OutOfTurn,
        }
    }
}

impl Clone for Report {
    fn clone(&self) -> (copy: Self)
        ensures
            copy == *self,
    {
        match self {
            Report::Registration(error) => Report::Registration(error.clone()),
            Report::Connection(error) => Report::Connection(error.clone()),
            Report::UnexpectedFrame => Report::UnexpectedFrame,
            Report::OutOfTurn => Report::OutOfTurn,
        }
    }
}

} // verus!
