//! The reply that every connection receives.

use vstd::prelude::*;
use vstd::string::*;

verus! {

/// The reply, as text: a leading newline, a status line, two headers, an
/// empty line and the body.
pub const RESPONSE: &'static str =
    "\nHTTP/1.1 200 OK\nContent-Type: text/html; charset=utf-8\nContent-Length: 13\n\nHello, World!";

/// The body of the reply: `Hello, World!`.
pub open spec fn response_body() -> Seq<u8> {
    seq![72u8, 101, 108, 108, 111, 44, 32, 87, 111, 114, 108, 100, 33]
}

/// Everything of the reply that precedes the body.
pub open spec fn response_head() -> Seq<u8> {
    seq![
        10u8, 72, 84, 84, 80, 47, 49, 46, 49, 32, 50, 48, 48, 32, 79, 75, 10,
        67, 111, 110, 116, 101, 110, 116, 45, 84, 121, 112, 101, 58, 32,
        116, 101, 120, 116, 47, 104, 116, 109, 108, 59, 32,
        99, 104, 97, 114, 115, 101, 116, 61, 117, 116, 102, 45, 56, 10,
        67, 111, 110, 116, 101, 110, 116, 45, 76, 101, 110, 103, 116, 104, 58, 32, 49, 51, 10,
        10,
    ]
}

/// The bytes of the reply, in the order in which they go on the wire.
pub open spec fn response_payload() -> Seq<u8> {
    response_head() + response_body()
}

/// The reply as bytes, ready to be written to a connection.
pub fn response_bytes() -> (bytes: &'static [u8])
    ensures
        bytes@ == response_payload(),
{
    proof {
        reveal_strlit("\nHTTP/1.1 200 OK\nContent-Type: text/html; charset=utf-8\nContent-Length: 13\n\nHello, World!");
        is_ascii_spec_bytes(RESPONSE);
    }
    RESPONSE.as_bytes()
}

} // verus!
