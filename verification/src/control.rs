//! The control-stream protocol and gateway authentication.
//!
//! The first stream of a connection is bidirectional and carries proxy
//! metadata: the client asks for a destination with its authentication
//! key and may later hand over the terminal encryption key; the
//! gateway answers each request with a fixed acknowledgement, and
//! acknowledges the mid-session return from Play to Configuration. A
//! record is a four-byte big-endian length, a tag byte, then the
//! message's fields.

use vstd::prelude::*;
use vstd::seq_lib::*;
use crate::decoder::Decoder;
use crate::encoder::Encoder;
use crate::error::DecodeError;
use crate::text::{parse_string_field, string_wire, McString};
use crate::wire::{
    be_u16, be_u32, lemma_be_u32, lemma_concat_skip, lemma_var_int_bytes_len, u16_of_be, u32_of_be,
    var_int_bytes,
};
use crate::text::lemma_string_field;
use crate::BUFFER_LIMIT;

verus! {

/// A destination socket address, as carried on the control stream.
#[derive(Copy, Clone, Debug)]
pub enum SocketAddress {
    /// An IPv4 address and a port.
    V4([u8; 4], u16),
    /// An IPv6 address and a port.
    V6([u8; 16], u16),
}

/// The client's first request: the key that authorises use of the
/// gateway, and where to connect.
#[derive(Debug)]
pub struct ConnectTo {
    pub authentication_key: McString,
    pub destination_server: SocketAddress,
}

/// The client's handover of the 16-byte terminal encryption key.
#[derive(Copy, Clone, Debug)]
pub struct EnableTerminalEncryption {
    pub key: [u8; 16],
}

/// A message sent by the client over the control stream.
#[derive(Debug)]
pub enum ClientMessage {
    ConnectTo(ConnectTo),
    EnableTerminalEncryption(EnableTerminalEncryption),
}

/// A message sent by the gateway over the control stream.
#[derive(Copy, Clone, Debug, PartialEq, Eq, Structural)]
pub enum GatewayMessage {
    /// The ConnectTo request has been honoured.
    AcknowledgeConnectTo,
    /// The terminal encryption key is in force for future packets.
    AcknowledgeEnableTerminalEncryption,
    /// The session is back in the Configuration state.
    AcknowledgeTransitionPlayToConfig,
}

/// The wire form of a socket address: a kind byte, the address bytes,
/// then the port.
pub open spec fn socket_address_wire(a: SocketAddress) -> Seq<u8> {
    match a {
        SocketAddress::V4(ip, port) => seq![0u8] + ip@ + be_u16(port),
        SocketAddress::V6(ip, port) => seq![1u8] + ip@ + be_u16(port),
    }
}

/// Whether `a` is what a reader makes of the socket address at the
/// head of `s`.
pub open spec fn socket_address_matches(a: SocketAddress, s: Seq<u8>) -> bool {
    match a {
        SocketAddress::V4(ip, port) => {
            &&& s.len() >= 7
            &&& s[0] == 0
            &&& ip@ == s.subrange(1, 5)
            &&& port == u16_of_be(s.subrange(5, 7))
        },
        SocketAddress::V6(ip, port) => {
            &&& s.len() >= 19
            &&& s[0] == 1
            &&& ip@ == s.subrange(1, 17)
            &&& port == u16_of_be(s.subrange(17, 19))
        },
    }
}

/// Whether some socket address can be read from the head of `s`.
pub open spec fn socket_address_parses(s: Seq<u8>) -> bool {
    s.len() >= 1 && ((s[0] == 0 && s.len() >= 7) || (s[0] == 1 && s.len() >= 19))
}

/// The wire form of a client message body, after the length prefix.
pub open spec fn client_message_wire(m: ClientMessage) -> Seq<u8> {
    match m {
        ClientMessage::ConnectTo(c) => seq![0u8] + string_wire(c.authentication_key@)
            + socket_address_wire(c.destination_server),
        ClientMessage::EnableTerminalEncryption(e) => seq![1u8] + e.key@,
    }
}

/// Whether `m` is what a reader makes of a client message body.
pub open spec fn client_body_matches(m: ClientMessage, b: Seq<u8>) -> bool {
    match m {
        ClientMessage::ConnectTo(c) => {
            &&& b.len() >= 1
            &&& b[0] == 0
            &&& match parse_string_field(b.skip(1)) {
                None => false,
                Some((bytes, n)) => c.authentication_key@ == bytes && socket_address_matches(
                    c.destination_server,
                    b.skip(1).skip(n),
                ),
            }
        },
        ClientMessage::EnableTerminalEncryption(e) => {
            &&& b.len() >= 17
            &&& b[0] == 1
            &&& e.key@ == b.subrange(1, 17)
        },
    }
}

/// Whether some client message can be read from a body.
pub open spec fn client_body_parses(b: Seq<u8>) -> bool {
    b.len() >= 1 && if b[0] == 0 {
        match parse_string_field(b.skip(1)) {
            None => false,
            Some((bytes, n)) => socket_address_parses(b.skip(1).skip(n)),
        }
    } else if b[0] == 1 {
        b.len() >= 17
    } else {
        false
    }
}

/// The wire form of a gateway message body, after the length prefix.
pub open spec fn gateway_message_wire(m: GatewayMessage) -> Seq<u8> {
    match m {
        GatewayMessage::AcknowledgeConnectTo => seq![0u8],
        GatewayMessage::AcknowledgeEnableTerminalEncryption => seq![1u8],
        GatewayMessage::AcknowledgeTransitionPlayToConfig => seq![2u8],
    }
}

/// A whole control-stream record: the body's length as four big-endian
/// bytes, then the body.
pub open spec fn control_frame(body: Seq<u8>) -> Seq<u8> {
    be_u32(body.len() as u32) + body
}

/// Writes a socket address.
fn write_socket_address(enc: &mut Encoder, a: &SocketAddress)
    ensures
        final(enc).bytes() == old(enc).bytes() + socket_address_wire(*a),
{
    match a {
        SocketAddress::V4(ip, port) => {
            enc.write_u8(0);
            enc.write_slice(ip.as_slice());
            enc.write_u16(*port);
        },
        SocketAddress::V6(ip, port) => {
            enc.write_u8(1);
            enc.write_slice(ip.as_slice());
            enc.write_u16(*port);
        },
    }
    proof {
        assert_seqs_equal!(enc.bytes() == old(enc).bytes() + socket_address_wire(*a));
    }
}

/// Frames a client message for the control stream.
pub fn encode_client_message(m: &ClientMessage) -> (r: Vec<u8>)
    ensures
        r@ == control_frame(client_message_wire(*m)),
{
    let mut body = Encoder::new();
    match m {
        ClientMessage::ConnectTo(c) => {
            body.write_u8(0);
            body.write_string(&c.authentication_key);
            write_socket_address(&mut body, &c.destination_server);
            proof {
                assert_seqs_equal!(body.bytes() == client_message_wire(*m));
            }
        },
        ClientMessage::EnableTerminalEncryption(e) => {
            body.write_u8(1);
            body.write_slice(e.key.as_slice());
            proof {
                assert_seqs_equal!(body.bytes() == client_message_wire(*m));
            }
        },
    }
    let body = body.into_bytes();
    proof {
        assert(body@ == client_message_wire(*m));
        match m {
            ClientMessage::ConnectTo(c) => {
                use_type_invariant(&c.authentication_key);
                lemma_var_int_bytes_len(c.authentication_key@.len() as u32);
                assert(string_wire(c.authentication_key@).len() <= 32772);
                assert(body@.len() == 1 + string_wire(c.authentication_key@).len()
                    + socket_address_wire(c.destination_server).len());
                match c.destination_server {
                    SocketAddress::V4(ip, _) => {
                        assert(ip@.len() == 4);
                    },
                    SocketAddress::V6(ip, _) => {
                        assert(ip@.len() == 16);
                    },
                }
            },
            ClientMessage::EnableTerminalEncryption(e) => {
                assert(e.key@.len() == 16);
            },
        }
        assert(body@.len() <= 0xffffffff);
    }
    let mut framed = Encoder::new();
    framed.write_u32(body.len() as u32);
    framed.write_slice(body.as_slice());
    framed.into_bytes()
}

/// Frames a gateway message for the control stream.
pub fn encode_gateway_message(m: &GatewayMessage) -> (r: Vec<u8>)
    ensures
        r@ == control_frame(gateway_message_wire(*m)),
{
    let mut body = Encoder::new();
    match m {
        GatewayMessage::AcknowledgeConnectTo => body.write_u8(0),
        GatewayMessage::AcknowledgeEnableTerminalEncryption => body.write_u8(1),
        GatewayMessage::AcknowledgeTransitionPlayToConfig => body.write_u8(2),
    }
    let body = body.into_bytes();
    let mut framed = Encoder::new();
    framed.write_u32(body.len() as u32);
    framed.write_slice(body.as_slice());
    framed.into_bytes()
}

/// Splits one control-stream record off the front of `buf`: the
/// record's body and the bytes it spans, or nothing when the record
/// has not fully arrived. Bodies longer than the one-mebibyte bound
/// are refused.
pub fn split_control_frame(buf: &[u8]) -> (r: Result<Option<(Vec<u8>, usize)>, DecodeError>)
    ensures
        match r {
            Ok(Some((body, consumed))) => {
                let l = u32_of_be(buf@.take(4));
                &&& buf@.len() >= 4
                &&& l <= BUFFER_LIMIT
                &&& buf@.len() >= 4 + l
                &&& consumed == 4 + l
                &&& body@ == buf@.subrange(4, 4 + l)
            },
            Ok(None) => buf@.len() < 4 || (u32_of_be(buf@.take(4)) <= BUFFER_LIMIT && buf@.len()
                < 4 + u32_of_be(buf@.take(4))),
            Err(_) => buf@.len() >= 4 && u32_of_be(buf@.take(4)) > BUFFER_LIMIT,
        },
{
    let mut dec = Decoder::new(buf);
    let length = match dec.read_u32() {
        Ok(l) => l,
        Err(_) => {
            return Ok(None);
        },
    };
    let length = length as usize;
    if length > BUFFER_LIMIT {
        return Err(DecodeError::StringTooLong);
    }
    let body = match dec.consume_slice(length) {
        Ok(s) => s,
        Err(_) => {
            return Ok(None);
        },
    };
    proof {
        assert_seqs_equal!(buf@.skip(4).take(length as int) == buf@.subrange(4, 4 + length as int));
    }
    Ok(Some((vstd::slice::slice_to_vec(body), 4 + length)))
}

/// Reads a socket address from the decoder.
fn read_socket_address(dec: &mut Decoder<'_>) -> (r: Result<SocketAddress, DecodeError>)
    ensures
        match r {
            Ok(a) => socket_address_matches(a, old(dec).remaining()),
            Err(_) => !socket_address_parses(old(dec).remaining()),
        },
{
    let kind = dec.read_u8()?;
    if kind == 0 {
        let ip = dec.consume::<4>()?;
        let port = dec.read_u16()?;
        proof {
            let rem = old(dec).remaining();
            assert_seqs_equal!(ip@ == rem.subrange(1, 5));
            assert_seqs_equal!(rem.skip(1).skip(4).take(2) == rem.subrange(5, 7));
        }
        Ok(SocketAddress::V4(ip, port))
    } else if kind == 1 {
        let ip = dec.consume::<16>()?;
        let port = dec.read_u16()?;
        proof {
            let rem = old(dec).remaining();
            assert_seqs_equal!(ip@ == rem.subrange(1, 17));
            assert_seqs_equal!(rem.skip(1).skip(16).take(2) == rem.subrange(17, 19));
        }
        Ok(SocketAddress::V6(ip, port))
    } else {
        Err(DecodeError::UnknownDiscriminant(kind as i64))
    }
}

/// Reads a client message out of one record body.
pub fn decode_client_message(body: &[u8]) -> (r: Result<ClientMessage, DecodeError>)
    ensures
        match r {
            Ok(m) => client_body_matches(m, body@),
            Err(_) => !client_body_parses(body@),
        },
{
    let mut dec = Decoder::new(body);
    let tag = dec.read_u8()?;
    if tag == 0 {
        let authentication_key = dec.read_string()?;
        let destination_server = read_socket_address(&mut dec)?;
        Ok(
            ClientMessage::ConnectTo(
                ConnectTo { authentication_key, destination_server },
            ),
        )
    } else if tag == 1 {
        let key = dec.consume::<16>()?;
        proof {
            assert_seqs_equal!(key@ == body@.subrange(1, 17));
        }
        Ok(ClientMessage::EnableTerminalEncryption(EnableTerminalEncryption { key }))
    } else {
        Err(DecodeError::UnknownDiscriminant(tag as i64))
    }
}

/// Reads a gateway message out of one record body.
pub fn decode_gateway_message(body: &[u8]) -> (r: Result<GatewayMessage, DecodeError>)
    ensures
        match r {
            Ok(m) => body@.len() >= 1 && gateway_message_wire(m)[0] == body@[0],
            Err(_) => body@.len() == 0 || (body@[0] != 0 && body@[0] != 1 && body@[0] != 2),
        },
{
    let mut dec = Decoder::new(body);
    let tag = dec.read_u8()?;
    if tag == 0 {
        Ok(GatewayMessage::AcknowledgeConnectTo)
    } else if tag == 1 {
        Ok(GatewayMessage::AcknowledgeEnableTerminalEncryption)
    } else if tag == 2 {
        Ok(GatewayMessage::AcknowledgeTransitionPlayToConfig)
    } else {
        Err(DecodeError::UnknownDiscriminant(tag as i64))
    }
}

/// A framed client message splits and reads back to itself.
pub proof fn lemma_client_message_round_trip(m: ClientMessage)
    requires
        m matches ClientMessage::ConnectTo(c) ==> c.authentication_key.wf(),
    ensures
        ({
            let frame = control_frame(client_message_wire(m));
            let body = client_message_wire(m);
            &&& body.len() <= BUFFER_LIMIT
            &&& u32_of_be(frame.take(4)) == body.len()
            &&& frame.subrange(4, 4 + body.len() as int) == body
            &&& client_body_matches(m, body)
        }),
{
    let body = client_message_wire(m);
    match m {
        ClientMessage::ConnectTo(c) => {
            lemma_var_int_bytes_len(c.authentication_key@.len() as u32);
        },
        ClientMessage::EnableTerminalEncryption(_) => {},
    }
    lemma_be_u32(body.len() as u32);
    assert_seqs_equal!(control_frame(body).take(4) == be_u32(body.len() as u32));
    assert_seqs_equal!(control_frame(body).subrange(4, 4 + body.len() as int) == body);
    match m {
        ClientMessage::ConnectTo(c) => {
            let auth = string_wire(c.authentication_key@);
            let addr = socket_address_wire(c.destination_server);
            assert_seqs_equal!(body.skip(1) == auth + addr);
            lemma_string_field(c.authentication_key@, addr);
            lemma_concat_skip(auth, addr);
            match c.destination_server {
                SocketAddress::V4(ip, port) => {
                    crate::wire::lemma_be_u16(port);
                    assert_seqs_equal!(addr.subrange(1, 5) == ip@);
                    assert_seqs_equal!(addr.subrange(5, 7) == be_u16(port));
                },
                SocketAddress::V6(ip, port) => {
                    crate::wire::lemma_be_u16(port);
                    assert_seqs_equal!(addr.subrange(1, 17) == ip@);
                    assert_seqs_equal!(addr.subrange(17, 19) == be_u16(port));
                },
            }
        },
        ClientMessage::EnableTerminalEncryption(e) => {
            assert_seqs_equal!(body.subrange(1, 17) == e.key@);
        },
    }
}

/// The credential the gateway is configured with: either an Argon2
/// hash in PHC form, or a plaintext key compared directly.
#[derive(Debug)]
pub enum AuthenticationKey {
    Plaintext(Vec<u8>),
    Hashed(Vec<u8>),
}

/// Whether `credential` is a well-formed Argon2 PHC string.
pub uninterp spec fn phc_valid(credential: Seq<u8>) -> bool;

/// Whether the Argon2 hash in `credential` verifies `key`; false also
/// when `credential` is not a well-formed PHC string.
pub uninterp spec fn argon2_verifies(credential: Seq<u8>, key: Seq<u8>) -> bool;

/// Relies on `argon2::password_hash::PasswordHash::new`: whether a
/// credential parses as a PHC string depends on its bytes alone.
#[verifier::external_body]
fn phc_parses(credential: &[u8]) -> (r: bool)
    ensures
        r == phc_valid(credential@),
{
    match core::str::from_utf8(credential) {
        Ok(s) => argon2::password_hash::PasswordHash::new(s).is_ok(),
        Err(_) => false,
    }
}

/// Relies on `argon2::Argon2::verify_password` with the default
/// parameters: whether a key verifies against a PHC credential depends
/// on the two byte strings alone.
#[verifier::external_body]
fn argon2_verify(credential: &[u8], key: &[u8]) -> (r: bool)
    ensures
        r == argon2_verifies(credential@, key@),
{
    match core::str::from_utf8(credential) {
        Ok(s) => match argon2::password_hash::PasswordHash::new(s) {
            Ok(parsed) => argon2::PasswordVerifier::verify_password(
                &argon2::Argon2::default(),
                key,
                &parsed,
            ).is_ok(),
            Err(_) => false,
        },
        Err(_) => false,
    }
}

/// Whether two byte strings hold the same bytes.
fn bytes_equal(a: &[u8], b: &[u8]) -> (r: bool)
    ensures
        r == (a@ == b@),
{
    if a.len() != b.len() {
        proof {
            assert(a@.len() != b@.len());
        }
        return false;
    }
    let n = a.len();
    let mut i: usize = 0;
    while i < n
        invariant
            i <= n,
            n == a@.len(),
            n == b@.len(),
            forall|j: int| 0 <= j < i ==> a@[j] == b@[j],
        decreases n - i,
    {
        if *vstd::slice::slice_index_get(a, i) != *vstd::slice::slice_index_get(b, i) {
            return false;
        }
        i = i + 1;
    }
    proof {
        assert_seqs_equal!(a@ == b@);
    }
    true
}

impl AuthenticationKey {
    /// Classifies a configured credential: a valid Argon2 PHC string
    /// is used as a hash, anything else as a plaintext key.
    pub fn classify(credential: Vec<u8>) -> (r: AuthenticationKey)
        ensures
            r == if phc_valid(credential@) {
                AuthenticationKey::Hashed(credential)
            } else {
                AuthenticationKey::Plaintext(credential)
            },
    {
        if phc_parses(credential.as_slice()) {
            AuthenticationKey::Hashed(credential)
        } else {
            AuthenticationKey::Plaintext(credential)
        }
    }

    /// Whether a key presented by a client is accepted: equal bytes
    /// for a plaintext credential, an Argon2 verification for a hashed
    /// one.
    pub fn is_correct(&self, key: &[u8]) -> (r: bool)
        ensures
            r == match self {
                AuthenticationKey::Plaintext(s) => s@ == key@,
                AuthenticationKey::Hashed(h) => argon2_verifies(h@, key@),
            },
    {
        match self {
            AuthenticationKey::Plaintext(s) => bytes_equal(s.as_slice(), key),
            AuthenticationKey::Hashed(h) => argon2_verify(h.as_slice(), key),
        }
    }
}

} // verus!
