use vstd::prelude::*;

use crate::block::Block;
use crate::transaction::Transaction;

verus! {

/// The kind of body a message carries.
#[derive(Debug, Clone, Copy, PartialEq, Eq, Structural)]
pub enum MessageType {
    Tx,
    Block,
}

/// A payload as it arrived from a peer.
#[derive(Debug, Clone)]
pub struct RPC {
    pub from: String,
    pub payload: Vec<u8>,
}

/// A typed envelope: its kind and its encoded body.
#[derive(Debug, Clone)]
pub struct Message {
    pub header: MessageType,
    pub data: Vec<u8>,
}

impl Message {
    pub fn new(t: MessageType, data: Vec<u8>) -> (r: Message)
        ensures
            r.header == t,
            r.data@ == data@,
    {
        Message { header: t, data }
    }
}

/// A decoded body.
#[derive(Debug)]
pub enum Decoded {
    Tx(Transaction),
    Block(Block),
}

/// The kind of message that carries a body of this sort.
pub open spec fn kind_of(d: Decoded) -> MessageType {
    match d {
        Decoded::Tx(_) => MessageType::Tx,
        Decoded::Block(_) => MessageType::Block,
    }
}

/// A decoded body with the address of the peer it came from.
#[derive(Debug)]
pub struct DecodedMessage {
    pub from: String,
    pub data: Decoded,
}

impl DecodedMessage {
    pub fn new(from: String, data: Decoded) -> (r: DecodedMessage)
        ensures
            r.from@ == from@,
            r.data == data,
    {
        DecodedMessage { from, data }
    }
}

/// What went wrong decoding a message.
#[derive(Debug, Clone, Copy, PartialEq, Eq, Structural)]
pub enum DecodeErrorKind {
    /// The envelope itself could not be read.
    Envelope,
    /// The body is not of the kind the envelope announced.
    InvalidHeader(MessageType),
    /// The body does not decode as the kind announced.
    Body(MessageType),
}

/// A decoding failure, with the peer it came from.
#[derive(Debug, Clone)]
pub struct MessageDecodeError {
    pub from: String,
    pub error: DecodeErrorKind,
}

/// Turns a read envelope into a decoded message. `body` is what was read from the message
/// body as the kind the envelope announced, or `None` where it did not decode. Every failure
/// names the sender.
pub fn decode_envelope(from: String, header: MessageType, body: Option<Decoded>) -> (r: Result<
    DecodedMessage,
    MessageDecodeError,
>)
    ensures
        body is None ==> (r matches Err(e) && e.from@ == from@ && e.error == DecodeErrorKind::Body(
            header,
        )),
        body is Some && kind_of(body.unwrap()) != header ==> (r matches Err(e) && e.from@ == from@
            && e.error == DecodeErrorKind::InvalidHeader(header)),
        body is Some && kind_of(body.unwrap()) == header ==> (r matches Ok(m) && m.from@ == from@
            && m.data == body.unwrap()),
{
    match body {
        None => Err(MessageDecodeError { from, error: DecodeErrorKind::Body(header) }),
        Some(d) => {
            let matches_header = match (&d, header) {
                (Decoded::Tx(_), MessageType::Tx) => true,
                (Decoded::Block(_), MessageType::Block) => true,
                _ => false,
            };
            if matches_header {
                Ok(DecodedMessage::new(from, d))
            } else {
                Err(MessageDecodeError { from, error: DecodeErrorKind::InvalidHeader(header) })
            }
        },
    }
}

} // verus!
