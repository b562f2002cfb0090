use bytes::Bytes;
use futures_channel::mpsc;
use ntripping::duplex::{Frame, Inbound, Offer, ReceiveError, SendError, SendHalf};

#[test]
fn second_offer_before_drain_is_busy() {
    let (tx, mut rx) = mpsc::channel::<Bytes>(0);
    let mut send = SendHalf::new(tx);
    assert_eq!(send.offer(b"first\r\n".to_vec()), Ok(Offer::Accepted));
    assert_eq!(send.offer(b"second\r\n".to_vec()), Ok(Offer::Busy));
    // the queued line is intact, the rejected one never arrives
    assert_eq!(rx.try_next().unwrap(), Some(Bytes::from_static(b"first\r\n")));
    assert!(rx.try_next().is_err());
    assert_eq!(send.offer(b"third\r\n".to_vec()), Ok(Offer::Accepted));
    assert_eq!(rx.try_next().unwrap(), Some(Bytes::from_static(b"third\r\n")));
}

#[test]
fn offer_after_receiver_gone_is_rejected() {
    let (tx, rx) = mpsc::channel::<Bytes>(0);
    let mut send = SendHalf::new(tx);
    drop(rx);
    assert_eq!(send.offer(b"line\r\n".to_vec()), Err(SendError));
    assert_eq!(SendError.message(), "failed to send message");
}

#[test]
fn close_ends_the_outbound_body() {
    let (tx, mut rx) = mpsc::channel::<Bytes>(0);
    let mut send = SendHalf::new(tx);
    assert_eq!(send.offer(b"last\r\n".to_vec()), Ok(Offer::Accepted));
    send.close();
    assert_eq!(rx.try_next().unwrap(), Some(Bytes::from_static(b"last\r\n")));
    assert_eq!(rx.try_next().unwrap(), None);
    assert_eq!(send.offer(b"late\r\n".to_vec()), Err(SendError));
}

#[test]
fn inbound_passes_chunks_until_end() {
    let mut inbound = Inbound::new();
    let chunk = Bytes::from_static(b"\xd3\x00\x13");
    assert_eq!(inbound.on_frame(Frame::Data(chunk.clone())), Some(Ok(chunk)));
    assert!(!inbound.finished);
    assert_eq!(inbound.on_frame(Frame::End), None);
    assert!(inbound.finished);
    assert_eq!(inbound.on_frame(Frame::Data(Bytes::from_static(b"more"))), None);
}

#[test]
fn inbound_trailers_end_the_stream() {
    let mut inbound = Inbound::new();
    assert_eq!(inbound.on_frame(Frame::Trailers), None);
    assert_eq!(inbound.on_frame(Frame::Data(Bytes::from_static(b"x"))), None);
}

#[test]
fn inbound_fault_is_reported_once() {
    let mut inbound = Inbound::new();
    assert_eq!(
        inbound.on_frame(Frame::Fault("connection reset".to_string())),
        Some(Err(ReceiveError("connection reset".to_string())))
    );
    assert_eq!(inbound.on_frame(Frame::Fault("again".to_string())), None);
    assert_eq!(inbound.on_frame(Frame::Data(Bytes::from_static(b"x"))), None);
}
