//! Frames of the duplex stream and their translation into events.

use crate::event::Event;
use crate::text::str_eq;
use vstd::prelude::*;

verus! {

/// A frame read from the duplex stream, reduced to what the client acts on.
#[derive(Debug, PartialEq, Eq)]
pub enum Frame {
    /// A text frame with its payload.
    Text(String),
    /// A keep-alive frame, answered by the transport itself.
    Ping,
    /// Any other frame.
    Other,
}

/// Mathematical model of a [`Frame`].
pub enum FrameView {
    Text(Seq<char>),
    Ping,
    Other,
}

impl View for Frame {
    type V = FrameView;

    open spec fn view(&self) -> FrameView {
        match self {
            Frame::Text(payload) => FrameView::Text(payload@),
            Frame::Ping => FrameView::Ping,
            Frame::Other => FrameView::Other,
        }
    }
}

impl Clone for Frame {
    fn clone(&self) -> (copy: Self)
        ensures
            copy == *self,
    {
        match self {
            Frame::Text(payload) => Frame::Text(payload.clone()),
            Frame::Ping => Frame::Ping,
            Frame::Other => Frame::Other,
        }
    }
}

/// The event a frame stands for: the payloads `Next` and `Previous`, matched
/// exactly and with case, are the two commands; nothing else is one.
pub open spec fn translation(frame: FrameView) -> Option<Event> {
    match frame {
        FrameView::Text(payload) => if payload == "Next"@ {
            Some(Event::Next)
        } else if payload == "Previous"@ {
            Some(Event::Previous)
        } else {
            None
        },
        _ => None,
    }
}

/// Translates a frame into the event it stands for, if any.
pub fn translate(frame: &Frame) -> (event: Option<Event>)
    ensures
        event == translation(frame@),
{
    match frame {
        Frame::Text(payload) => {
            if str_eq(payload.as_str(), "Next") {
                Some(Event::Next)
            } else if str_eq(payload.as_str(), "Previous") {
                Some(Event::Previous)
            } else {
                None
            }
        },
        _ => None,
    }
}

} // verus!
