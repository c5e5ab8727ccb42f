use sshe::protocol::{
    answer_hello, check_hello_reply, decode_frame_len, encode_frame, ClientFrame, ServerFrame,
    MAX_FRAME_LEN, PROTOCOL_VERSION,
};

fn decode(frame: &[u8]) -> Vec<u8> {
    let header = [frame[0], frame[1], frame[2], frame[3]];
    let len = decode_frame_len(header).expect("length within the limit");
    frame[4..4 + len].to_vec()
}

#[test]
fn frame_round_trip() {
    let payload = br#"{"type":"hello","protocol_version":1,"client_name":"sshea","token":"secret"}"#;
    let frame = encode_frame(payload).unwrap();
    assert_eq!(frame.len(), payload.len() + 4);
    assert_eq!(&frame[..4], &(payload.len() as u32).to_be_bytes());
    assert_eq!(decode(&frame), payload.to_vec());
}

#[test]
fn frame_round_trip_sizes() {
    for n in [0usize, 1, 255, 256, 65536, MAX_FRAME_LEN] {
        let payload = vec![7u8; n];
        let frame = encode_frame(&payload).unwrap();
        assert_eq!(decode(&frame), payload);
    }
}

#[test]
fn oversized_frames_are_refused() {
    let payload = vec![0u8; MAX_FRAME_LEN + 1];
    assert_eq!(encode_frame(&payload).unwrap_err(), "frame length 1048577 exceeds max 1048576");
    let header = ((MAX_FRAME_LEN + 1) as u32).to_be_bytes();
    assert_eq!(decode_frame_len(header).unwrap_err(), "frame length 1048577 exceeds max 1048576");
    assert_eq!(
        decode_frame_len([0xff, 0xff, 0xff, 0xff]).unwrap_err(),
        "frame length 4294967295 exceeds max 1048576"
    );
    assert_eq!(decode_frame_len([0, 0x10, 0, 0]).unwrap(), MAX_FRAME_LEN);
}

fn hello(version: u32, token: &str) -> ClientFrame {
    ClientFrame::Hello {
        protocol_version: version,
        client_name: "sshea".to_string(),
        token: token.to_string(),
    }
}

#[test]
fn hello_with_right_token_is_accepted() {
    let caps = vec!["exec.v1".to_string()];
    let answer = answer_hello(&hello(PROTOCOL_VERSION, "secret"), "secret", &caps);
    assert_eq!(
        answer,
        ServerFrame::HelloAccepted { protocol_version: 1, capabilities: caps.clone() }
    );
    assert_eq!(check_hello_reply(&answer).unwrap(), caps);
}

#[test]
fn hello_refusals() {
    let caps = vec!["hello.v1".to_string()];
    let answer = answer_hello(&hello(PROTOCOL_VERSION, "guess"), "secret", &caps);
    assert_eq!(
        answer,
        ServerFrame::Error { code: "unauthorized".to_string(), message: "invalid token".to_string() }
    );
    assert_eq!(check_hello_reply(&answer).unwrap_err(), "server rejected hello: unauthorized: invalid token");

    let answer = answer_hello(&hello(2, "secret"), "secret", &caps);
    assert_eq!(
        answer,
        ServerFrame::Error {
            code: "unsupported_protocol".to_string(),
            message: "expected protocol version 1".to_string()
        }
    );

    let odd = ServerFrame::HelloAccepted { protocol_version: 7, capabilities: vec![] };
    assert_eq!(check_hello_reply(&odd).unwrap_err(), "server returned unsupported protocol version 7");
}
