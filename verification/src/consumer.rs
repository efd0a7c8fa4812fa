//! The consumer's side: what a notification changes on the panel that the
//! user sees, and which key an event is played as.

use crate::event::{Event, StateChange, StateChangeView};
use crate::views::option_view;
use vstd::prelude::*;

verus! {

/// A key that the consumer presses on the user's behalf.
#[derive(Clone, Copy, Debug, PartialEq, Eq, Structural)]
pub enum Key {
    Left,
    Right,
}

/// The key that an event is played as: back is left, forward is right.
pub open spec fn key_of(event: Event) -> Key {
    match event {
        Event::Previous => Key::Left,
        Event::Next => Key::Right,
    }
}

/// The key to press for an event.
pub fn key_for(event: Event) -> (key: Key)
    ensures
        key == key_of(event),
{
    match event {
        Event::Previous => Key::Left,
        Event::Next => Key::Right,
    }
}

/// What the panel shows of the connection.
#[derive(Debug, PartialEq, Eq)]
pub struct Panel {
    /// The status line.
    pub status: String,
    /// The address of the live stream, while there is one.
    pub websocket_url: Option<String>,
    /// The address of the control page, while the stream is live.
    pub publish_url: Option<String>,
}

/// Mathematical model of a [`Panel`].
pub struct PanelView {
    pub status: Seq<char>,
    pub websocket_url: Option<Seq<char>>,
    pub publish_url: Option<Seq<char>>,
}

impl View for Panel {
    type V = PanelView;

    open spec fn view(&self) -> PanelView {
        PanelView {
            status: self.status@,
            websocket_url: option_view(self.websocket_url),
            publish_url: option_view(self.publish_url),
        }
    }
}

impl PanelView {
    /// The panel after a notification: `Connecting` clears the addresses,
    /// `Connected` shows them, and an event leaves the panel as it is.
    pub open spec fn after(self, change: StateChangeView) -> PanelView {
        match change {
            StateChangeView::Connecting => PanelView {
                status: "Connecting..."@,
                websocket_url: None,
                publish_url: None,
            },
            StateChangeView::Connected { websocket_url, publish_url } => PanelView {
                status: "Connected!"@,
                websocket_url: Some(websocket_url),
                publish_url: Some(publish_url),
            },
            StateChangeView::EventReceived(_) => self,
        }
    }
}

/// The key that a notification has pressed: that of its event, if it is one.
pub open spec fn key_pressed(change: StateChangeView) -> Option<Key> {
    match change {
        StateChangeView::EventReceived(event) => Some(key_of(event)),
        _ => None,
    }
}

impl Panel {
    /// The panel before anything was notified.
    pub fn new() -> (panel: Self)
        ensures
            panel@ == (PanelView {
                status: "Initializing"@,
                websocket_url: None,
                publish_url: None,
            }),
    {
        Panel { status: "Initializing".to_owned(), websocket_url: None, publish_url: None }
    }

    /// Takes a notification in: updates what is shown, and says which key is
    /// to be pressed, if any.
    pub fn apply(&mut self, change: StateChange) -> (key: Option<Key>)
        ensures
            final(self)@ == old(self)@.after(change@),
            key == key_pressed(change@),
    {
        match change {
            StateChange::Connecting => {
                self.status = "Connecting...".to_owned();
                self.websocket_url = None;
                self.publish_url = None;
                None
            },
            StateChange::Connected { websocket_url, publish_url } => {
                self.status = "Connected!".to_owned();
                self.websocket_url = Some(websocket_url);
                self.publish_url = Some(publish_url);
                None
            },
            StateChange::EventReceived(event) => Some(key_for(event)),
        }
    }
}

} // verus!
