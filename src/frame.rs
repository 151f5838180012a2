use vstd::prelude::*;

verus! {

/// How the framing layer classified one received message.
#[derive(Clone, Copy, Debug, PartialEq, Eq, Structural)]
pub enum FrameKind {
    Text,
    Binary,
    Ping,
    Pong,
    Close,
    Other,
}

/// Text and binary frames carry content; every other kind is control traffic.
pub open spec fn is_content_kind(k: FrameKind) -> bool {
    k == FrameKind::Text || k == FrameKind::Binary
}

/// What a frame is, mathematically: its kind and its payload bytes.
pub type FrameModel = (FrameKind, Seq<u8>);

impl FrameKind {
    /// Whether a frame of this kind is relayed back to the peer.
    pub fn is_content(&self) -> (r: bool)
        ensures
            r == is_content_kind(*self),
    {
        match self {
            FrameKind::Text => true,
            FrameKind::Binary => true,
            _ => false,
        }
    }

    pub fn is_control(&self) -> (r: bool)
        ensures
            r == !is_content_kind(*self),
    {
        !self.is_content()
    }
}

/// One message unit of the framed protocol. A text frame holds its UTF-8 bytes.
#[derive(Debug, PartialEq, Eq)]
pub struct Frame {
    pub kind: FrameKind,
    pub payload: Vec<u8>,
}

impl View for Frame {
    type V = FrameModel;

    open spec fn view(&self) -> FrameModel {
        (self.kind, self.payload@)
    }
}

impl Frame {
    pub fn new(kind: FrameKind, payload: Vec<u8>) -> (r: Frame)
        ensures
            r@ == (kind, payload@),
    {
        Frame { kind, payload }
    }

    pub fn text(payload: Vec<u8>) -> (r: Frame)
        ensures
            r@ == (FrameKind::Text, payload@),
    {
        Frame { kind: FrameKind::Text, payload }
    }

    pub fn binary(payload: Vec<u8>) -> (r: Frame)
        ensures
            r@ == (FrameKind::Binary, payload@),
    {
        Frame { kind: FrameKind::Binary, payload }
    }

    pub fn is_content(&self) -> (r: bool)
        ensures
            r == is_content_kind(self.kind),
    {
        self.kind.is_content()
    }
}

} // verus!
