use remote_server::protocol::{encode_message, relay_frame, ByteStream, Envelope, FrameError};

#[test]
fn encode_prefixes_length_little_endian() {
    let payload = vec![10u8, 20, 30];
    let frame = encode_message(&payload);
    assert_eq!(frame, vec![3u8, 0, 0, 0, 10, 20, 30]);
}

#[test]
fn encode_empty_payload() {
    let frame = encode_message(&Vec::new());
    assert_eq!(frame, vec![0u8, 0, 0, 0]);
}

#[test]
fn round_trip_decodes_what_was_encoded() {
    let payload = vec![0u8, 1, 2, 3, 255, 254, 7];
    let mut stream = ByteStream::new(encode_message(&payload));
    let decoded = stream.read_frame().expect("a whole frame was written");
    assert_eq!(decoded.payload, payload);
}

#[test]
fn frames_decode_in_order_with_trailing_data() {
    let first = vec![1u8, 2];
    let second = vec![9u8];
    let mut data = encode_message(&first);
    data.extend_from_slice(&encode_message(&second));
    data.push(77); // a torn header begins
    let mut stream = ByteStream::new(data);
    assert_eq!(stream.read_frame().unwrap().payload, first);
    assert_eq!(stream.read_frame().unwrap().payload, second);
    assert_eq!(stream.read_frame().unwrap_err(), FrameError::TruncatedHeader);
}

#[test]
fn stream_closing_inside_header_is_an_error() {
    let mut stream = ByteStream::new(vec![5u8, 0, 0]);
    assert_eq!(stream.read_frame().unwrap_err(), FrameError::TruncatedHeader);
}

#[test]
fn stream_closing_inside_payload_is_an_error_never_a_short_payload() {
    // Header announces 5 payload bytes; only 2 arrive before the stream ends.
    let mut stream = ByteStream::new(vec![5u8, 0, 0, 0, 42, 43]);
    assert_eq!(stream.read_frame().unwrap_err(), FrameError::TruncatedPayload);
}

#[test]
fn relay_reemits_the_frame_bytes_unchanged() {
    let payload = vec![8u8, 9, 10];
    let frame = encode_message(&payload);
    let mut stream = ByteStream::new(frame.clone());
    let relayed = relay_frame(&mut stream).expect("one whole frame");
    assert_eq!(relayed, frame);
}

#[test]
fn envelope_carries_its_payload() {
    let env = Envelope { payload: vec![1, 2, 3] };
    assert_eq!(env.payload.len(), 3);
}
