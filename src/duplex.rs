//! The duplex connection: a send half that offers lines to a single-slot
//! outbound channel, and the rules by which inbound frames become chunks.

use vstd::prelude::*;

verus! {

/// What became of a line offered to the send half.
#[derive(Clone, Copy, Debug, PartialEq, Eq, Structural)]
pub enum Offer {
    /// The line was queued for transmission.
    Accepted,
    /// The slot still holds an earlier line; this one was dropped.
    Busy,
}

/// The outbound channel is closed: nothing more can be sent.
#[derive(Clone, Copy, Debug, PartialEq, Eq, Structural)]
pub struct SendError;

impl SendError {
    pub fn message(&self) -> (r: &'static str)
        ensures
            r@ == "failed to send message"@,
    {
        "failed to send message"
    }
}


/// `futures_channel::mpsc::Sender`, opaque: the sending end of the outbound
/// channel, used only through the wrappers below.
#[verifier::external_type_specification]
#[verifier::external_body]
#[verifier::reject_recursive_types(T)]
pub struct ExChannelSender<T>(futures_channel::mpsc::Sender<T>);

/// `bytes::Bytes`, opaque: a chunk carried through unchanged.
#[verifier::external_type_specification]
#[verifier::external_body]
pub struct ExBytes(bytes::Bytes);

/// `hyper::Response`, opaque: held by the receive half for the transport to
/// poll.
#[verifier::external_type_specification]
#[verifier::external_body]
#[verifier::reject_recursive_types(T)]
pub struct ExResponse<T>(hyper::Response<T>);

/// `hyper::body::Incoming`, opaque: the response body.
#[verifier::external_type_specification]
#[verifier::external_body]
pub struct ExIncoming(hyper::body::Incoming);

/// Relies on `futures_channel::mpsc::Sender::try_send`: it queues the item
/// when the channel has room and otherwise returns an error whose
/// `is_disconnected` tells a closed channel from a full one. Which of the
/// three happens depends on the receiving side, so nothing is promised.
#[verifier::external_body]
fn try_send_bytes(
    tx: &mut futures_channel::mpsc::Sender<bytes::Bytes>,
    payload: Vec<u8>,
) -> (r: Result<Offer, SendError>) {
    match tx.try_send(bytes::Bytes::from(payload)) {
        Ok(()) => Ok(Offer::Accepted),
        Err(e) => if e.is_disconnected() {
            Err(SendError)
        } else {
            Ok(Offer::Busy)
        },
    }
}

/// Relies on `futures_channel::mpsc::Sender::close_channel`: the receiver
/// sees the end of the stream once the queued items are taken.
#[verifier::external_body]
fn close_sender(tx: &mut futures_channel::mpsc::Sender<bytes::Bytes>) {
    tx.close_channel()
}

/// The write half: lines offered here feed the outbound request body.
#[derive(Debug)]
pub struct SendHalf {
    tx: futures_channel::mpsc::Sender<bytes::Bytes>,
}

impl SendHalf {
    /// A send half over the sending end of the outbound channel.
    pub fn new(tx: futures_channel::mpsc::Sender<bytes::Bytes>) -> (r: SendHalf)
        ensures
            r.sender() == tx,
    {
        SendHalf { tx }
    }

    pub closed spec fn sender(&self) -> futures_channel::mpsc::Sender<bytes::Bytes> {
        self.tx
    }

    /// Offers one line without waiting. A full slot rejects it with `Busy`
    /// rather than queueing it behind the earlier one; a closed channel
    /// gives `SendError`. Either way the half stays usable for the next
    /// offer.
    pub fn offer(&mut self, payload: Vec<u8>) -> (r: Result<Offer, SendError>) {
        try_send_bytes(&mut self.tx, payload)
    }

    /// Ends the outbound body.
    pub fn close(&mut self) {
        close_sender(&mut self.tx)
    }
}

/// A fault of the transport while the response body was being read, with
/// the transport's description of it.
#[derive(Debug, PartialEq, Eq)]
pub struct ReceiveError(pub String);

/// What the transport delivered for one poll of the response body.
#[derive(Debug)]
pub enum Frame {
    /// A chunk of data, exactly as delivered.
    Data(bytes::Bytes),
    /// A frame that carries no data (trailers); it ends the stream.
    Trailers,
    /// The transport failed, for the reason given.
    Fault(String),
    /// The peer ended the body.
    End,
}

/// Whether the inbound stream has ended.
#[derive(Clone, Copy, Debug, PartialEq, Eq, Structural)]
pub struct Inbound {
    pub finished: bool,
}

impl Inbound {
    pub fn new() -> (r: Inbound)
        ensures
            !r.finished,
    {
        Inbound { finished: false }
    }

    /// The item a frame yields. Data passes through untouched; a fault is
    /// reported once and not retried; after the end, or after a fault,
    /// nothing more is yielded whatever the transport delivers.
    pub fn on_frame(&mut self, frame: Frame) -> (r: Option<Result<bytes::Bytes, ReceiveError>>)
        ensures
            old(self).finished ==> r is None && final(self).finished,
            !old(self).finished ==> match frame {
                Frame::Data(b) => r == Some(Ok::<bytes::Bytes, ReceiveError>(b))
                    && !final(self).finished,
                Frame::Fault(e) => r == Some(Err::<bytes::Bytes, ReceiveError>(ReceiveError(e)))
                    && final(self).finished,
                _ => r is None && final(self).finished,
            },
    {
        if self.finished {
            return None;
        }
        match frame {
            Frame::Data(b) => Some(Ok(b)),
            Frame::Fault(e) => {
                self.finished = true;
                Some(Err(ReceiveError(e)))
            },
            _ => {
                self.finished = true;
                None
            },
        }
    }
}

/// The read half: the response whose body carries the correction stream.
#[derive(Debug)]
pub struct ReceiveHalf {
    pub response: hyper::Response<hyper::body::Incoming>,
    pub inbound: Inbound,
}

impl ReceiveHalf {
    pub fn new(response: hyper::Response<hyper::body::Incoming>) -> (r: ReceiveHalf)
        ensures
            r.response == response,
            !r.inbound.finished,
    {
        ReceiveHalf { response, inbound: Inbound::new() }
    }
}

/// An open session: one send half and one receive half over one transport.
#[derive(Debug)]
pub struct Connection {
    send: SendHalf,
    recv: ReceiveHalf,
}

impl Connection {
    pub fn new(send: SendHalf, recv: ReceiveHalf) -> (r: Connection)
        ensures
            r.send_half() == send,
            r.receive_half() == recv,
    {
        Connection { send, recv }
    }

    pub closed spec fn send_half(&self) -> SendHalf {
        self.send
    }

    pub closed spec fn receive_half(&self) -> ReceiveHalf {
        self.recv
    }

    /// Hands out the two halves. The connection is consumed, so it splits
    /// once; each half is owned alone by whoever holds it.
    pub fn split(self) -> (r: (SendHalf, ReceiveHalf))
        ensures
            r.0 == self.send_half(),
            r.1 == self.receive_half(),
    {
        (self.send, self.recv)
    }
}

} // verus!
