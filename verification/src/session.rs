//! Sessions, and how a registration reply is read into one.

use crate::error::{RegistrationError, RegistrationErrorView};
use crate::fields::{Fields, FieldsView};
use crate::views::result_view;
use vstd::prelude::*;

verus! {

/// The coordinates and secret obtained by one registration. A session belongs
/// to a single connection attempt.
#[derive(Debug, PartialEq, Eq)]
pub struct Session {
    pub publish_url: String,
    pub websocket_url: String,
    pub secret: String,
}

/// Mathematical model of a [`Session`].
pub struct SessionView {
    pub publish_url: Seq<char>,
    pub websocket_url: Seq<char>,
    pub secret: Seq<char>,
}

impl View for Session {
    type V = SessionView;

    open spec fn view(&self) -> SessionView {
        SessionView {
            publish_url: self.publish_url@,
            websocket_url: self.websocket_url@,
            secret: self.secret@,
        }
    }
}

impl Clone for Session {
    fn clone(&self) -> (copy: Self)
        ensures
            copy == *self,
    {
        Session {
            publish_url: self.publish_url.clone(),
            websocket_url: self.websocket_url.clone(),
            secret: self.secret.clone(),
        }
    }
}

/// The value of a field that a session cannot do without, or the error that
/// names the field.
pub open spec fn required(fields: FieldsView, name: Seq<char>) -> Result<
    Seq<char>,
    RegistrationErrorView,
> {
    if fields.contains_key(name) {
        Ok(fields[name])
    } else {
        Err(RegistrationErrorView::MissingField(name))
    }
}

/// The session that a reply's fields make up: its three required fields, or
/// the error that names the first of them that is missing.
pub open spec fn session_of(fields: FieldsView) -> Result<SessionView, RegistrationErrorView> {
    match required(fields, "publish_url"@) {
        Err(error) => Err(error),
        Ok(publish_url) => match required(fields, "websocket_url"@) {
            Err(error) => Err(error),
            Ok(websocket_url) => match required(fields, "secret"@) {
                Err(error) => Err(error),
                Ok(secret) => Ok(SessionView { publish_url, websocket_url, secret }),
            },
        },
    }
}

/// What registration comes to, given what the backend sent back: a transport
/// failure stays one, and a reply is read into a session.
pub open spec fn registration(reply: Result<FieldsView, Seq<char>>) -> Result<
    SessionView,
    RegistrationErrorView,
> {
    match reply {
        Err(cause) => Err(RegistrationErrorView::Transport(cause)),
        Ok(fields) => session_of(fields),
    }
}

/// Finds the value of a field that a session cannot do without.
fn required_field(fields: &Fields, name: &str) -> (value: Result<String, RegistrationError>)
    ensures
        result_view(value) == required(fields@, name@),
{
    match fields.get(name) {
        Some(found) => Ok(found.clone()),
        None => Err(RegistrationError::MissingField(name.to_owned())),
    }
}

impl Session {
    /// Reads a session out of the fields of a reply. The fields are asked for
    /// in the order `publish_url`, `websocket_url`, `secret`, and the first
    /// one that is missing is the error.
    pub fn from_fields(fields: &Fields) -> (outcome: Result<Session, RegistrationError>)
        ensures
            result_view(outcome) == session_of(fields@),
    {
        let publish_url = match required_field(fields, "publish_url") {
            Ok(value) => value,
            Err(error) => return Err(error),
        };
        let websocket_url = match required_field(fields, "websocket_url") {
            Ok(value) => value,
            Err(error) => return Err(error),
        };
        let secret = match required_field(fields, "secret") {
            Ok(value) => value,
            Err(error) => return Err(error),
        };
        Ok(Session { publish_url, websocket_url, secret })
    }
}

/// Concludes a registration from what the backend sent back: the decoded
/// fields of its reply, or the cause for which none came.
pub fn register(reply: Result<Fields, String>) -> (outcome: Result<Session, RegistrationError>)
    ensures
        result_view(outcome) == registration(result_view(reply)),
{
    match reply {
        Ok(fields) => Session::from_fields(&fields),
        Err(cause) => Err(RegistrationError::Transport(cause)),
    }
}

} // verus!
