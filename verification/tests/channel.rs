use playground::channel::{Channel, Error, RecvPoll};
use playground::codec::{Request, Response};
use playground::frame::{encode_frame, pop_frame};

/// Moves everything one endpoint has queued into the peer's receiving half,
/// as a transport would.
fn deliver<T: playground::codec::WireItem>(
    from: &mut playground::channel::Sender<T>,
    to: &mut playground::channel::Receiver<T>,
) {
    let bytes = from.take_bytes();
    to.feed(&bytes);
}

#[test]
fn symmetric_send_recv() {
    // Endpoint 1 accepts, endpoint 2 connects; the transport is a pair of
    // in-memory byte streams.
    let channel_1: Channel<String, String> = Channel::new();
    let channel_2: Channel<String, String> = Channel::new();
    let (mut sender_1, mut receiver_1) = channel_1.split();
    let (mut sender_2, mut receiver_2) = channel_2.split();

    sender_1.send(String::from("123")).unwrap();
    deliver(&mut sender_1, &mut receiver_2);
    assert_eq!(receiver_2.recv(), RecvPoll::Item(String::from("123")));

    sender_2.send(String::from("321")).unwrap();
    deliver(&mut sender_2, &mut receiver_1);
    assert_eq!(receiver_1.recv(), RecvPoll::Item(String::from("321")));

    sender_1.send(String::from("456")).unwrap();
    deliver(&mut sender_1, &mut receiver_2);
    assert_eq!(receiver_2.recv(), RecvPoll::Item(String::from("456")));

    sender_2.send(String::from("654")).unwrap();
    deliver(&mut sender_2, &mut receiver_1);
    assert_eq!(receiver_1.recv(), RecvPoll::Item(String::from("654")));
}

#[test]
fn asymmetric_send_recv() {
    let channel_1: Channel<Request, Response> = Channel::new();
    let channel_2: Channel<Response, Request> = Channel::new();
    let (mut sender_1, mut receiver_1) = channel_1.split();
    let (mut sender_2, mut receiver_2) = channel_2.split();

    sender_1.send(Request(String::from("123"))).unwrap();
    deliver(&mut sender_1, &mut receiver_2);
    assert_eq!(receiver_2.recv(), RecvPoll::Item(Request(String::from("123"))));

    sender_2.send(Response(String::from("321"))).unwrap();
    deliver(&mut sender_2, &mut receiver_1);
    assert_eq!(receiver_1.recv(), RecvPoll::Item(Response(String::from("321"))));

    sender_1.send(Request(String::from("456"))).unwrap();
    deliver(&mut sender_1, &mut receiver_2);
    assert_eq!(receiver_2.recv(), RecvPoll::Item(Request(String::from("456"))));

    sender_2.send(Response(String::from("654"))).unwrap();
    deliver(&mut sender_2, &mut receiver_1);
    assert_eq!(receiver_1.recv(), RecvPoll::Item(Response(String::from("654"))));
}

#[test]
fn ordering_is_preserved() {
    let channel: Channel<String, String> = Channel::new();
    let (mut sender, _receiver) = channel.split();
    let peer: Channel<String, String> = Channel::new();
    let (_s, mut receiver) = peer.split();

    let messages = ["first", "second", "third", "fourth"];
    for m in messages {
        sender.send(String::from(m)).unwrap();
    }
    let bytes = sender.take_bytes();
    receiver.feed(&bytes);
    for m in messages {
        assert_eq!(receiver.recv(), RecvPoll::Item(String::from(m)));
    }
    assert_eq!(receiver.recv(), RecvPoll::Pending);
}

#[test]
fn closed_exactly_once_after_drain() {
    let channel: Channel<String, String> = Channel::new();
    let (mut sender, _r) = channel.split();
    let peer: Channel<String, String> = Channel::new();
    let (_s, mut receiver) = peer.split();

    sender.send(String::from("last words")).unwrap();
    let bytes = sender.take_bytes();
    receiver.feed(&bytes);
    receiver.close();

    // Buffered frames drain first, then the end of stream, which repeats.
    assert_eq!(receiver.recv(), RecvPoll::Item(String::from("last words")));
    assert_eq!(receiver.recv(), RecvPoll::Closed);
    assert_eq!(receiver.recv(), RecvPoll::Closed);
    assert_eq!(receiver.recv(), RecvPoll::Closed);
}

#[test]
fn malformed_length_prefix() {
    let channel: Channel<String, String> = Channel::new();
    let (_s, mut receiver) = channel.split();

    // A prefix claiming a 64-byte frame, followed by three bytes and the end
    // of the stream: a read error, not a hang.
    let bytes: Vec<u8> = vec![0, 0, 0, 64, 1, 2, 3];
    receiver.feed(&bytes);
    assert_eq!(receiver.recv(), RecvPoll::Pending);
    receiver.close();
    assert_eq!(receiver.recv(), RecvPoll::Failed(Error::ReadError));
}

#[test]
fn truncated_prefix_is_a_read_error() {
    let channel: Channel<String, String> = Channel::new();
    let (_s, mut receiver) = channel.split();

    // The stream ends inside the length prefix itself.
    let bytes: Vec<u8> = vec![0, 0];
    receiver.feed(&bytes);
    receiver.close();
    assert_eq!(receiver.recv(), RecvPoll::Failed(Error::ReadError));
}

#[test]
fn garbage_payload_is_a_read_error() {
    let channel: Channel<String, String> = Channel::new();
    let (_s, mut receiver) = channel.split();

    // A complete frame whose single payload byte is no serialized string.
    let bytes: Vec<u8> = vec![0, 0, 0, 1, 255];
    receiver.feed(&bytes);
    assert_eq!(receiver.recv(), RecvPoll::Failed(Error::ReadError));
}

#[test]
fn codec_round_trip() {
    let strings = ["", "123", "hello world", "\u{00fc}ber", "line\nbreak"];
    for s in strings {
        let back = playground::codec::round_trip(&String::from(s)).unwrap();
        assert_eq!(back, s);
    }
    let back = playground::codec::round_trip(&Request(String::from("req"))).unwrap();
    assert_eq!(back, Request(String::from("req")));
    let back = playground::codec::round_trip(&Response(String::from("resp"))).unwrap();
    assert_eq!(back, Response(String::from("resp")));
}

#[test]
fn frame_bytes_are_exact() {
    let payload: Vec<u8> = vec![7, 8];
    let frame = encode_frame(&payload).unwrap();
    assert_eq!(frame, vec![0, 0, 0, 2, 7, 8]);

    let mut buf = frame;
    buf.push(9); // a byte of the next frame
    let popped = pop_frame(&mut buf).unwrap();
    assert_eq!(popped, vec![7, 8]);
    assert_eq!(buf, vec![9]);
    assert!(pop_frame(&mut buf).is_none());
}

#[test]
fn wire_form_is_really_serialized() {
    // The codec writes an eight-byte length before the text, so the frame
    // around "123" holds 4 + 8 + 3 bytes. A codec that handed the text back
    // unchanged would queue 7.
    let channel: Channel<String, String> = Channel::new();
    let (mut sender, _r) = channel.split();
    sender.send(String::from("123")).unwrap();
    let bytes = sender.take_bytes();
    assert_eq!(bytes.len(), 15);
    assert_eq!(bytes[..4], [0, 0, 0, 11]);
    assert_eq!(bytes[4..12], [3, 0, 0, 0, 0, 0, 0, 0]);
    assert_eq!(bytes[12..], *b"123");
}

#[test]
fn split_halves_are_independent() {
    let channel: Channel<String, String> = Channel::new();
    let (mut sender, mut receiver) = channel.split();

    // Interleave sends into one half with feeds into the other: neither
    // half sees the other's bytes.
    sender.send(String::from("out")).unwrap();
    let inbound = {
        let peer: Channel<String, String> = Channel::new();
        let (mut s, _) = peer.split();
        s.send(String::from("in")).unwrap();
        s.take_bytes()
    };
    receiver.feed(&inbound);
    sender.send(String::from("out again")).unwrap();

    assert_eq!(receiver.recv(), RecvPoll::Item(String::from("in")));
    let out = sender.take_bytes();
    // Both outbound frames, untouched by the concurrent receiving.
    let mut buf = out;
    let first = pop_frame(&mut buf).unwrap();
    let second = pop_frame(&mut buf).unwrap();
    assert!(buf.is_empty());
    assert_eq!(first[8..], *b"out");
    assert_eq!(second[8..], *b"out again");
}
