//! The agent protocol between `sshea` and `sshed`: frames are a 4-byte
//! big-endian length followed by that many payload bytes (the JSON encoding
//! of a frame), and a session opens with a hello exchange.

use vstd::prelude::*;

use crate::text::{clone_strings, concat2, decimal, push_decimal, str_eq, views};

verus! {

/// The protocol version this library speaks.
pub const PROTOCOL_VERSION: u32 = 1;

/// The largest payload a frame may carry, in bytes.
pub const MAX_FRAME_LEN: usize = 1048576;

/// A frame sent by the client.
#[derive(Debug, Clone, PartialEq, Eq)]
pub enum ClientFrame {
    Hello { protocol_version: u32, client_name: String, token: String },
}

/// A frame sent by the server.
#[derive(Debug, Clone, PartialEq, Eq)]
pub enum ServerFrame {
    HelloAccepted { protocol_version: u32, capabilities: Vec<String> },
    Error { code: String, message: String },
}

/// A server frame with its strings taken by their characters.
pub enum ServerFrameView {
    HelloAccepted { protocol_version: u32, capabilities: Seq<Seq<char>> },
    Error { code: Seq<char>, message: Seq<char> },
}

impl View for ServerFrame {
    type V = ServerFrameView;

    open spec fn view(&self) -> ServerFrameView {
        match self {
            ServerFrame::HelloAccepted { protocol_version, capabilities } => {
                ServerFrameView::HelloAccepted {
                    protocol_version: *protocol_version,
                    capabilities: views(capabilities@),
                }
            },
            ServerFrame::Error { code, message } => ServerFrameView::Error {
                code: code@,
                message: message@,
            },
        }
    }
}

/// The four big-endian bytes of `n` (for `n < 2^32`).
pub open spec fn be32(n: nat) -> Seq<u8> {
    seq![
        (n / 16777216) as u8,
        ((n / 65536) % 256) as u8,
        ((n / 256) % 256) as u8,
        (n % 256) as u8,
    ]
}

/// The number whose big-endian bytes are the first four of `b`.
pub open spec fn from_be32(b: Seq<u8>) -> nat {
    (b[0] as nat) * 16777216 + (b[1] as nat) * 65536 + (b[2] as nat) * 256 + (b[3] as nat)
}

/// The frame that carries `payload`: its length, then the payload.
pub open spec fn frame_bytes(payload: Seq<u8>) -> Seq<u8> {
    be32(payload.len()) + payload
}

/// The error for a payload of `len` bytes, over the limit.
pub open spec fn too_long_message(len: nat) -> Seq<char> {
    "frame length "@ + decimal(len) + " exceeds max "@ + decimal(MAX_FRAME_LEN as nat)
}

fn too_long(len: u64) -> (r: String)
    ensures
        r@ == too_long_message(len as nat),
{
    let mut m = String::from_str("frame length ");
    push_decimal(&mut m, len);
    m.append(" exceeds max ");
    push_decimal(&mut m, MAX_FRAME_LEN as u64);
    m
}

/// The frame that carries `payload`; a payload over the limit is refused.
pub fn encode_frame(payload: &[u8]) -> (r: Result<Vec<u8>, String>)
    ensures
        payload@.len() <= MAX_FRAME_LEN ==> (r matches Ok(b) && b@ == frame_bytes(payload@)),
        payload@.len() > MAX_FRAME_LEN ==> (r matches Err(e) && e@ == too_long_message(
            payload@.len(),
        )),
{
    let len = payload.len();
    if len > MAX_FRAME_LEN {
        return Err(too_long(len as u64));
    }
    let n = len as u32;
    let mut out: Vec<u8> = Vec::new();
    out.push((n / 16777216) as u8);
    out.push(((n / 65536) % 256) as u8);
    out.push(((n / 256) % 256) as u8);
    out.push((n % 256) as u8);
    assert(out@ =~= be32(len as nat));
    let mut i: usize = 0;
    while i < len
        invariant
            i <= len,
            len == payload@.len(),
            len <= MAX_FRAME_LEN,
            out@ == be32(len as nat) + payload@.take(i as int),
        decreases len - i,
    {
        out.push(payload[i]);
        assert(payload@.take(i + 1) =~= payload@.take(i as int).push(payload@[i as int]));
        i = i + 1;
    }
    assert(payload@.take(len as int) =~= payload@);
    Ok(out)
}

/// The payload length announced by a frame header; over the limit it is
/// refused.
pub fn decode_frame_len(header: [u8; 4]) -> (r: Result<usize, String>)
    ensures
        from_be32(header@) <= MAX_FRAME_LEN ==> r == Ok::<usize, String>(from_be32(header@) as usize),
        from_be32(header@) > MAX_FRAME_LEN ==> (r matches Err(e) && e@ == too_long_message(
            from_be32(header@),
        )),
{
    let len: u64 = (header[0] as u64) * 16777216 + (header[1] as u64) * 65536 + (header[2] as u64)
        * 256 + (header[3] as u64);
    if len > MAX_FRAME_LEN as u64 {
        Err(too_long(len))
    } else {
        Ok(len as usize)
    }
}

/// Framing round trip: the header of the frame that carries `payload`
/// announces its length, and the bytes after the header are the payload.
pub proof fn lemma_frame_round_trip(payload: Seq<u8>)
    requires
        payload.len() <= MAX_FRAME_LEN,
    ensures
        frame_bytes(payload).len() == payload.len() + 4,
        from_be32(frame_bytes(payload).take(4)) == payload.len(),
        frame_bytes(payload).skip(4) == payload,
{
    let n = payload.len();
    let f = frame_bytes(payload);
    assert(f.take(4) =~= be32(n));
    assert(f.skip(4) =~= payload);
    assert(from_be32(be32(n)) == n) by (nonlinear_arith)
        requires
            n <= MAX_FRAME_LEN,
            be32(n) == seq![
                (n / 16777216) as u8,
                ((n / 65536) % 256) as u8,
                ((n / 256) % 256) as u8,
                (n % 256) as u8,
            ],
    {
    }
}

/// The server's answer to a client's first frame: a hello of another
/// protocol version is refused as unsupported, one with another token as
/// unauthorized, and any other is accepted with the server's capabilities.
pub open spec fn answer_spec(frame: ClientFrame, expected_token: Seq<char>, capabilities: Seq<
    Seq<char>,
>) -> ServerFrameView {
    match frame {
        ClientFrame::Hello { protocol_version, client_name, token } => {
            if protocol_version != PROTOCOL_VERSION {
                ServerFrameView::Error {
                    code: "unsupported_protocol"@,
                    message: "expected protocol version "@ + decimal(PROTOCOL_VERSION as nat),
                }
            } else if token@ != expected_token {
                ServerFrameView::Error { code: "unauthorized"@, message: "invalid token"@ }
            } else {
                ServerFrameView::HelloAccepted {
                    protocol_version: PROTOCOL_VERSION,
                    capabilities,
                }
            }
        },
    }
}

/// Answers a client's hello.
pub fn answer_hello(frame: &ClientFrame, expected_token: &str, capabilities: &Vec<String>) -> (r:
    ServerFrame)
    ensures
        r@ == answer_spec(*frame, expected_token@, views(capabilities@)),
{
    match frame {
        ClientFrame::Hello { protocol_version, client_name: _, token } => {
            if *protocol_version != PROTOCOL_VERSION {
                let mut message = String::from_str("expected protocol version ");
                push_decimal(&mut message, PROTOCOL_VERSION as u64);
                return ServerFrame::Error {
                    code: String::from_str("unsupported_protocol"),
                    message,
                };
            }
            if !str_eq(token.as_str(), expected_token) {
                return ServerFrame::Error {
                    code: String::from_str("unauthorized"),
                    message: String::from_str("invalid token"),
                };
            }
            ServerFrame::HelloAccepted {
                protocol_version: PROTOCOL_VERSION,
                capabilities: clone_strings(capabilities),
            }
        },
    }
}

/// What the client makes of the server's answer to its hello: the offered
/// capabilities if accepted in this protocol version, else an error.
pub open spec fn reply_spec(reply: ServerFrameView) -> Result<Seq<Seq<char>>, Seq<char>> {
    match reply {
        ServerFrameView::HelloAccepted { protocol_version, capabilities } => {
            if protocol_version != PROTOCOL_VERSION {
                Err(
                    "server returned unsupported protocol version "@ + decimal(
                        protocol_version as nat,
                    ),
                )
            } else {
                Ok(capabilities)
            }
        },
        ServerFrameView::Error { code, message } => Err(
            "server rejected hello: "@ + code + ": "@ + message,
        ),
    }
}

/// The view of a reply check.
pub open spec fn reply_result_view(r: Result<Vec<String>, String>) -> Result<
    Seq<Seq<char>>,
    Seq<char>,
> {
    match r {
        Ok(c) => Ok(views(c@)),
        Err(e) => Err(e@),
    }
}

/// Checks the server's answer to the client's hello.
pub fn check_hello_reply(reply: &ServerFrame) -> (r: Result<Vec<String>, String>)
    ensures
        reply_result_view(r) == reply_spec(reply@),
{
    match reply {
        ServerFrame::HelloAccepted { protocol_version, capabilities } => {
            if *protocol_version != PROTOCOL_VERSION {
                let mut m = String::from_str("server returned unsupported protocol version ");
                push_decimal(&mut m, *protocol_version as u64);
                return Err(m);
            }
            Ok(clone_strings(capabilities))
        },
        ServerFrame::Error { code, message } => {
            let mut m = concat2("server rejected hello: ", code.as_str());
            m.append(": ");
            m.append(message.as_str());
            Err(m)
        },
    }
}

/// The handshake: a hello in this protocol version carrying the server's
/// token is accepted, and the client then holds exactly the capabilities
/// the server offers; one with another token is refused as unauthorized.
pub proof fn lemma_handshake(
    client_name: String,
    token: String,
    expected_token: Seq<char>,
    capabilities: Seq<Seq<char>>,
)
    ensures
        token@ == expected_token ==> reply_spec(
            answer_spec(
                ClientFrame::Hello { protocol_version: PROTOCOL_VERSION, client_name, token },
                expected_token,
                capabilities,
            ),
        ) == Ok::<Seq<Seq<char>>, Seq<char>>(capabilities),
        token@ != expected_token ==> reply_spec(
            answer_spec(
                ClientFrame::Hello { protocol_version: PROTOCOL_VERSION, client_name, token },
                expected_token,
                capabilities,
            ),
        ) == Err::<Seq<Seq<char>>, Seq<char>>(
            "server rejected hello: "@ + "unauthorized"@ + ": "@ + "invalid token"@,
        ),
{
}

} // verus!
