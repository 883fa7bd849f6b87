//! Frames as the relay sees them: a discriminator and an opaque payload.

use vstd::prelude::*;

verus! {

/// The discriminator of a frame, which is all the relay ever branches on.
#[derive(Clone, Copy, Debug, PartialEq, Eq, Structural)]
pub enum Kind {
    /// A text data frame.
    Text,
    /// A binary data frame.
    Binary,
    /// The control frame that ends a connection.
    Close,
    /// Any other control frame (ping, pong).
    Control,
}

/// The status code and the reason that a close frame may carry.
#[derive(Debug, PartialEq, Eq)]
pub struct CloseFrame {
    pub code: u16,
    pub reason: String,
}

/// One frame of a connection. The payload is never inspected.
#[derive(Debug, PartialEq, Eq)]
pub enum Message {
    Text(String),
    Binary(Vec<u8>),
    Ping(Vec<u8>),
    Pong(Vec<u8>),
    Close(Option<CloseFrame>),
}

/// The mathematical value of a [`Message`].
pub enum MessageView {
    Text(Seq<char>),
    Binary(Seq<u8>),
    Ping(Seq<u8>),
    Pong(Seq<u8>),
    Close(Option<(u16, Seq<char>)>),
}

impl MessageView {
    /// The discriminator of this frame.
    pub open spec fn kind(self) -> Kind {
        match self {
            MessageView::Text(_) => Kind::Text,
            MessageView::Binary(_) => Kind::Binary,
            MessageView::Close(_) => Kind::Close,
            MessageView::Ping(_) | MessageView::Pong(_) => Kind::Control,
        }
    }

    /// Whether the relay passes this frame on: text and binary frames only.
    pub open spec fn is_data(self) -> bool {
        self.kind() == Kind::Text || self.kind() == Kind::Binary
    }
}

impl View for CloseFrame {
    type V = (u16, Seq<char>);

    open spec fn view(&self) -> (u16, Seq<char>) {
        (self.code, self.reason@)
    }
}

impl Clone for CloseFrame {
    fn clone(&self) -> (copy: CloseFrame)
        ensures
            copy@ == self@,
    {
        CloseFrame { code: self.code, reason: self.reason.clone() }
    }
}

impl View for Message {
    type V = MessageView;

    open spec fn view(&self) -> MessageView {
        match self {
            Message::Text(s) => MessageView::Text(s@),
            Message::Binary(b) => MessageView::Binary(b@),
            Message::Ping(b) => MessageView::Ping(b@),
            Message::Pong(b) => MessageView::Pong(b@),
            Message::Close(None) => MessageView::Close(None),
            Message::Close(Some(frame)) => MessageView::Close(Some(frame@)),
        }
    }
}

impl Clone for Message {
    /// A copy with the same discriminator and the same payload.
    fn clone(&self) -> (copy: Message)
        ensures
            copy@ == self@,
    {
        match self {
            Message::Text(s) => Message::Text(s.clone()),
            Message::Binary(b) => Message::Binary(b.clone()),
            Message::Ping(b) => Message::Ping(b.clone()),
            Message::Pong(b) => Message::Pong(b.clone()),
            Message::Close(None) => Message::Close(None),
            Message::Close(Some(frame)) => Message::Close(Some(frame.clone())),
        }
    }
}

impl Message {
    /// The discriminator of this frame.
    pub fn kind(&self) -> (kind: Kind)
        ensures
            kind == self@.kind(),
    {
        match self {
            Message::Text(_) => Kind::Text,
            Message::Binary(_) => Kind::Binary,
            Message::Close(_) => Kind::Close,
            Message::Ping(_) => Kind::Control,
            Message::Pong(_) => Kind::Control,
        }
    }

    /// Whether the relay passes this frame on to the other connections.
    pub fn is_data(&self) -> (data: bool)
        ensures
            data == self@.is_data(),
    {
        match self {
            Message::Text(_) => true,
            Message::Binary(_) => true,
            _ => false,
        }
    }
}

} // verus!
