//! The message envelopes that gossip hands to outbound channels.

use vstd::prelude::*;

verus! {

/// The two payload kinds that this pipeline propagates.
#[derive(Clone, Copy, PartialEq, Eq, Structural, Debug)]
pub enum MessageKind {
    Transaction,
    Block,
}

/// A wire message envelope: raw payload bytes wrapped with their kind.
/// Framing the bytes for the wire is the transport's affair; the pipeline
/// only decides who receives which envelope.
#[derive(PartialEq, Eq, Debug)]
pub enum WireMessage {
    Transaction(Vec<u8>),
    Block(Vec<u8>),
}

/// The mathematical value of a wire message: its kind and its byte content.
pub enum MessageView {
    Transaction(Seq<u8>),
    Block(Seq<u8>),
}

impl View for WireMessage {
    type V = MessageView;

    open spec fn view(&self) -> MessageView {
        match self {
            WireMessage::Transaction(b) => MessageView::Transaction(b@),
            WireMessage::Block(b) => MessageView::Block(b@),
        }
    }
}

/// The message value that a fan-out of `kind` with `payload` offers to each
/// eligible peer.
pub open spec fn envelope(kind: MessageKind, payload: Seq<u8>) -> MessageView {
    match kind {
        MessageKind::Transaction => MessageView::Transaction(payload),
        MessageKind::Block => MessageView::Block(payload),
    }
}

impl WireMessage {
    /// Wrap a payload for the wire.
    pub fn new(kind: MessageKind, payload: Vec<u8>) -> (m: WireMessage)
        ensures
            m@ == envelope(kind, payload@),
    {
        match kind {
            MessageKind::Transaction => WireMessage::Transaction(payload),
            MessageKind::Block => WireMessage::Block(payload),
        }
    }
}

} // verus!
