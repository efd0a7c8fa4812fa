//! Connection lifecycle of a slide remote-control client.
//!
//! The client registers with a backend, opens a duplex stream at the address
//! it was given, authenticates with its secret and then turns the text frames
//! it receives into `Next` and `Previous` events. This crate holds the
//! decisions of that lifecycle as a state machine that does no input or
//! output itself: a driver tells the [`WebSocketConnection`] the [`Outcome`]
//! of the last [`Command`], delivers the notification of its [`Reaction`] and
//! carries out the next command.
//!
//! * [`fields`] holds the fields of a registration reply, and [`session`]
//!   reads them into a [`Session`].
//! * [`address`] decides the address that the stream is opened at.
//! * [`frame`] translates frames into events.
//! * [`connection`] is the state machine, [`protocol`] what it exchanges
//!   with its driver, and [`laws`] what holds of every run of it.
//! * [`consumer`] is what a consumer makes of the notifications.

pub mod address;
pub mod connection;
pub mod consumer;
pub mod error;
pub mod event;
pub mod fields;
pub mod frame;
pub mod laws;
pub mod protocol;
pub mod session;
pub mod text;
pub mod views;

pub use connection::{Phase, WebSocketConnection};
pub use consumer::{Key, Panel};
pub use error::{ConnectionError, RegistrationError, Report};
pub use event::{Event, StateChange};
pub use frame::{translate, Frame};
pub use protocol::{Command, Config, Outcome, Reaction};
pub use fields::Fields;
pub use session::{register, Session};
