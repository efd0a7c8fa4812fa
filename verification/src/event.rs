//! Domain events and the lifecycle notifications a consumer observes.

use vstd::prelude::*;

verus! {

/// A remote command carried by the control channel.
#[derive(Clone, Copy, Debug, PartialEq, Eq, Structural)]
pub enum Event {
    Previous,
    Next,
}

/// A lifecycle notification, as delivered to the consumer.
#[derive(Debug, PartialEq, Eq)]
pub enum StateChange {
    /// Registration and stream setup are in progress.
    Connecting,
    /// The stream is live.
    Connected { websocket_url: String, publish_url: String },
    /// A control message arrived.
    EventReceived(Event),
}

/// Mathematical model of a [`StateChange`].
pub enum StateChangeView {
    Connecting,
    Connected { websocket_url: Seq<char>, publish_url: Seq<char> },
    EventReceived(Event),
}

impl View for StateChange {
    type V = StateChangeView;

    open spec fn view(&self) -> StateChangeView {
        match self {
            StateChange::Connecting => StateChangeView::Connecting,
            StateChange::Connected { websocket_url, publish_url } => StateChangeView::Connected {
                websocket_url: websocket_url@,
                publish_url: publish_url@,
            },
            StateChange::EventReceived(event) => StateChangeView::EventReceived(*event),
        }
    }
}

impl Clone for StateChange {
    fn clone(&self) -> (copy: Self)
        ensures
            copy == *self,
    {
        match self {
            StateChange::Connecting => StateChange::Connecting,
            StateChange::Connected { websocket_url, publish_url } => StateChange::Connected {
                websocket_url: websocket_url.clone(),
                publish_url: publish_url.clone(),
            },
            StateChange::EventReceived(event) => StateChange::EventReceived(*event),
        }
    }
}

} // verus!
