//! The wire format of NAT-PMP: requests into bytes, responses out of bytes.
//!
//! Every packet starts with a version byte, which is 0, and an opcode byte.
//! Fields of more than one byte travel in network order, most significant
//! byte first.

use vstd::prelude::*;
use crate::error::Error;
use crate::message::{
    GatewayResponse, GatewayView, MappingResponse, MappingView, Protocol, Response, ResponseType,
    ResponseView,
};
use crate::time::whole_seconds;

verus! {

/// The protocol version that this client speaks.
pub const NATPMP_VERSION: u8 = 0;

/// Number of bytes in a public address request.
pub const ADDRESS_REQUEST_LEN: usize = 2;

/// Number of bytes in a port mapping request.
pub const MAPPING_REQUEST_LEN: usize = 12;

/// Number of bytes that a response is decoded from.
pub const RESPONSE_LEN: usize = 16;

/// The opcode of a response is the opcode of its request plus this.
pub const RESPONSE_OPCODE_BASE: u8 = 128;

/// The number that two bytes in network order stand for.
pub open spec fn spec_u16_be(bytes: Seq<u8>, at: int) -> nat {
    (bytes[at] as nat) * 256 + (bytes[at + 1] as nat)
}

/// The number that four bytes in network order stand for.
pub open spec fn spec_u32_be(bytes: Seq<u8>, at: int) -> nat {
    (bytes[at] as nat) * 16_777_216 + (bytes[at + 1] as nat) * 65_536 + (bytes[at + 2] as nat)
        * 256 + (bytes[at + 3] as nat)
}

/// The two bytes of `value` in network order.
pub open spec fn spec_u16_be_bytes(value: u16) -> Seq<u8> {
    seq![(value / 256) as u8, (value % 256) as u8]
}

/// The four bytes of `value` in network order.
pub open spec fn spec_u32_be_bytes(value: u32) -> Seq<u8> {
    seq![
        (value / 16_777_216) as u8,
        (value / 65_536 % 256) as u8,
        (value / 256 % 256) as u8,
        (value % 256) as u8,
    ]
}

/// Reads the 16-bit number at `at`.
pub fn read_u16_be(bytes: &[u8], at: usize) -> (value: u16)
    requires
        at + 2 <= bytes@.len(),
    ensures
        value == spec_u16_be(bytes@, at as int),
{
    (bytes[at] as u16) * 256 + (bytes[at + 1] as u16)
}

/// Reads the 32-bit number at `at`.
pub fn read_u32_be(bytes: &[u8], at: usize) -> (value: u32)
    requires
        at + 4 <= bytes@.len(),
    ensures
        value == spec_u32_be(bytes@, at as int),
{
    (bytes[at] as u32) * 16_777_216 + (bytes[at + 1] as u32) * 65_536 + (bytes[at + 2] as u32)
        * 256 + (bytes[at + 3] as u32)
}

/// Appends the two bytes of `value` to `bytes`.
pub fn push_u16_be(bytes: &mut Vec<u8>, value: u16)
    ensures
        final(bytes)@ == old(bytes)@ + spec_u16_be_bytes(value),
{
    bytes.push((value / 256) as u8);
    bytes.push((value % 256) as u8);
}

/// Appends the four bytes of `value` to `bytes`.
pub fn push_u32_be(bytes: &mut Vec<u8>, value: u32)
    ensures
        final(bytes)@ == old(bytes)@ + spec_u32_be_bytes(value),
{
    bytes.push((value / 16_777_216) as u8);
    bytes.push((value / 65_536 % 256) as u8);
    bytes.push((value / 256 % 256) as u8);
    bytes.push((value % 256) as u8);
}

/// Reading the bytes of a 16-bit number gives the number back.
pub proof fn lemma_u16_be_round_trip(value: u16)
    ensures
        spec_u16_be(spec_u16_be_bytes(value), 0) == value,
{
}

/// Reading the bytes of a 32-bit number gives the number back.
pub proof fn lemma_u32_be_round_trip(value: u32)
    ensures
        spec_u32_be(spec_u32_be_bytes(value), 0) == value,
{
}

/// The bytes of a public address request: the version and opcode 0.
pub open spec fn spec_public_address_request() -> Seq<u8> {
    seq![0u8, 0u8]
}

/// The bytes of a port mapping request: the version, the opcode of the
/// protocol, two reserved bytes that are 0, the private port, the public port
/// and the lifetime in seconds.
pub open spec fn spec_port_mapping_request(
    protocol: Protocol,
    private_port: u16,
    public_port: u16,
    lifetime: u32,
) -> Seq<u8> {
    seq![0u8, protocol.spec_opcode(), 0u8, 0u8] + spec_u16_be_bytes(private_port)
        + spec_u16_be_bytes(public_port) + spec_u32_be_bytes(lifetime)
}

/// Encodes the request for the gateway's public address.
pub fn encode_public_address_request() -> (request: Vec<u8>)
    ensures
        request@ == spec_public_address_request(),
        request@.len() == ADDRESS_REQUEST_LEN,
{
    let mut request: Vec<u8> = Vec::new();
    request.push(NATPMP_VERSION);
    request.push(0);
    request
}

/// Encodes the request to map `private_port` to `public_port` for `lifetime`
/// seconds. No port and no lifetime is refused: a lifetime of 0 asks the
/// gateway to delete the mapping.
pub fn encode_port_mapping_request(
    protocol: Protocol,
    private_port: u16,
    public_port: u16,
    lifetime: u32,
) -> (request: Vec<u8>)
    ensures
        request@ == spec_port_mapping_request(protocol, private_port, public_port, lifetime),
        request@.len() == MAPPING_REQUEST_LEN,
{
    let mut request: Vec<u8> = Vec::new();
    request.push(NATPMP_VERSION);
    request.push(protocol.opcode());
    request.push(0);
    request.push(0);
    push_u16_be(&mut request, private_port);
    push_u16_be(&mut request, public_port);
    push_u32_be(&mut request, lifetime);
    request
}

/// The fields of a port mapping request can be read back from its bytes.
pub proof fn lemma_port_mapping_request_fields(
    protocol: Protocol,
    private_port: u16,
    public_port: u16,
    lifetime: u32,
)
    ensures
        ({
            let request = spec_port_mapping_request(protocol, private_port, public_port, lifetime);
            &&& request.len() == 12
            &&& request[0] == 0
            &&& request[1] == protocol.spec_opcode()
            &&& request[2] == 0
            &&& request[3] == 0
            &&& spec_u16_be(request, 4) == private_port
            &&& spec_u16_be(request, 6) == public_port
            &&& spec_u32_be(request, 8) == lifetime
        }),
{
}

/// The error that a result code of the gateway stands for. The code 0 means
/// success and stands for no error.
pub open spec fn spec_result_code_error(code: nat) -> Option<Error> {
    if code == 0 {
        None
    } else if code == 1 {
        Some(Error::NATPMP_ERR_UNSUPPORTEDVERSION)
    } else if code == 2 {
        Some(Error::NATPMP_ERR_NOTAUTHORIZED)
    } else if code == 3 {
        Some(Error::NATPMP_ERR_NETWORKFAILURE)
    } else if code == 4 {
        Some(Error::NATPMP_ERR_OUTOFRESOURCES)
    } else if code == 5 {
        Some(Error::NATPMP_ERR_UNSUPPORTEDOPCODE)
    } else {
        Some(Error::NATPMP_ERR_UNDEFINEDERROR)
    }
}

/// Maps a result code of the gateway to the error that it reports.
pub fn result_code_error(code: u16) -> (error: Option<Error>)
    ensures
        error == spec_result_code_error(code as nat),
        error is None <==> code == 0,
{
    match code {
        0 => None,
        1 => Some(Error::NATPMP_ERR_UNSUPPORTEDVERSION),
        2 => Some(Error::NATPMP_ERR_NOTAUTHORIZED),
        3 => Some(Error::NATPMP_ERR_NETWORKFAILURE),
        4 => Some(Error::NATPMP_ERR_OUTOFRESOURCES),
        5 => Some(Error::NATPMP_ERR_UNSUPPORTEDOPCODE),
        _ => Some(Error::NATPMP_ERR_UNDEFINEDERROR),
    }
}

/// What the bytes of a response mean. The checks come in this order, and the
/// first that fails decides:
///
/// 1. the version, byte 0, is 0;
/// 2. the opcode, byte 1, is one of 128, 129 and 130;
/// 3. the result code, bytes 2 and 3, is 0.
///
/// Only then are the fields read: the epoch from bytes 4 to 7, and after it
/// either the public address, bytes 8 to 11, or the private port, the public
/// port and the lifetime in seconds, bytes 8 to 15.
pub open spec fn spec_decode_response(bytes: Seq<u8>) -> Result<ResponseView, Error>
    recommends
        bytes.len() >= 16,
{
    if bytes[0] != 0 {
        Err(Error::NATPMP_ERR_UNSUPPORTEDVERSION)
    } else if ResponseType::spec_from_opcode(bytes[1]) is None {
        Err(Error::NATPMP_ERR_UNSUPPORTEDOPCODE)
    } else if spec_result_code_error(spec_u16_be(bytes, 2)) is Some {
        Err(spec_result_code_error(spec_u16_be(bytes, 2))->Some_0)
    } else {
        let epoch = spec_u32_be(bytes, 4);
        let mapping = MappingView {
            epoch,
            private_port: spec_u16_be(bytes, 8),
            public_port: spec_u16_be(bytes, 10),
            lifetime: whole_seconds(spec_u32_be(bytes, 12)),
        };
        match ResponseType::spec_from_opcode(bytes[1])->Some_0 {
            ResponseType::Gateway => Ok(
                ResponseView::Gateway(
                    GatewayView { epoch, public_address: bytes.subrange(8, 12) },
                ),
            ),
            ResponseType::UDP => Ok(ResponseView::UDP(mapping)),
            ResponseType::TCP => Ok(ResponseView::TCP(mapping)),
        }
    }
}

/// The response with which a gateway that has been up for `epoch` seconds
/// grants the port mapping request `request` as it was asked: the opcode of
/// the request plus 128, the result code 0, the epoch, and the ports and the
/// lifetime of the request.
pub open spec fn spec_granted_response(request: Seq<u8>, epoch: u32) -> Seq<u8>
    recommends
        request.len() == MAPPING_REQUEST_LEN,
{
    seq![request[0], (request[1] + RESPONSE_OPCODE_BASE) as u8, 0u8, 0u8] + spec_u32_be_bytes(
        epoch,
    ) + request.subrange(4, 12)
}

/// A mapping comes back as it was asked for. The response that grants a port
/// mapping request unchanged decodes to a mapping response of the protocol of
/// the request, with the epoch of the gateway, the two ports of the request,
/// and a lifetime of exactly as many seconds as the request asked for.
pub proof fn lemma_granted_mapping_round_trip(
    protocol: Protocol,
    private_port: u16,
    public_port: u16,
    lifetime: u32,
    epoch: u32,
)
    ensures
        ({
            let request = spec_port_mapping_request(protocol, private_port, public_port, lifetime);
            let mapping = MappingView {
                epoch: epoch as nat,
                private_port: private_port as nat,
                public_port: public_port as nat,
                lifetime: whole_seconds(lifetime as nat),
            };
            spec_decode_response(spec_granted_response(request, epoch)) == match protocol {
                Protocol::UDP => Ok::<ResponseView, Error>(ResponseView::UDP(mapping)),
                Protocol::TCP => Ok::<ResponseView, Error>(ResponseView::TCP(mapping)),
            }
        }),
{
    lemma_port_mapping_request_fields(protocol, private_port, public_port, lifetime);
}

/// A decoded response or an error, with the response as numbers.
pub open spec fn spec_decoded(decoded: Result<Response, Error>) -> Result<ResponseView, Error> {
    match decoded {
        Ok(response) => Ok(response@),
        Err(error) => Err(error),
    }
}

/// Decodes a response of the gateway from the first 16 bytes of `bytes`.
///
/// A version other than 0 is reported as `NATPMP_ERR_UNSUPPORTEDVERSION`
/// whatever else the bytes hold. With version 0, an opcode that is not that of
/// a response is reported as `NATPMP_ERR_UNSUPPORTEDOPCODE` whatever the
/// result code. A result code other than 0 is reported as the error it stands
/// for, and no field behind it is read.
pub fn decode_response(bytes: &[u8]) -> (decoded: Result<Response, Error>)
    requires
        bytes@.len() >= RESPONSE_LEN,
    ensures
        spec_decoded(decoded) == spec_decode_response(bytes@),
        bytes@[0] != 0 ==> decoded == Err::<Response, Error>(Error::NATPMP_ERR_UNSUPPORTEDVERSION),
        bytes@[0] == 0 && !(128 <= bytes@[1] <= 130) ==> decoded == Err::<Response, Error>(
            Error::NATPMP_ERR_UNSUPPORTEDOPCODE,
        ),
        bytes@[0] == 0 && 128 <= bytes@[1] <= 130 && spec_u16_be(bytes@, 2) != 0 ==> decoded
            == Err::<Response, Error>(spec_result_code_error(spec_u16_be(bytes@, 2))->Some_0),
        decoded is Ok <==> bytes@[0] == 0 && 128 <= bytes@[1] <= 130 && spec_u16_be(bytes@, 2)
            == 0,
{
    if bytes[0] != NATPMP_VERSION {
        return Err(Error::NATPMP_ERR_UNSUPPORTEDVERSION);
    }
    let kind = match ResponseType::from_opcode(bytes[1]) {
        Some(kind) => kind,
        None => {
            return Err(Error::NATPMP_ERR_UNSUPPORTEDOPCODE);
        },
    };
    let result_code = read_u16_be(bytes, 2);
    if let Some(error) = result_code_error(result_code) {
        return Err(error);
    }
    let epoch = read_u32_be(bytes, 4);
    match kind {
        ResponseType::Gateway => {
            let public_address: [u8; 4] = [bytes[8], bytes[9], bytes[10], bytes[11]];
            assert(public_address@ =~= bytes@.subrange(8, 12));
            Ok(Response::Gateway(GatewayResponse::new(epoch, public_address)))
        },
        ResponseType::UDP => {
            let private_port = read_u16_be(bytes, 8);
            let public_port = read_u16_be(bytes, 10);
            let lifetime = read_u32_be(bytes, 12);
            Ok(Response::UDP(MappingResponse::new(epoch, private_port, public_port, lifetime)))
        },
        ResponseType::TCP => {
            let private_port = read_u16_be(bytes, 8);
            let public_port = read_u16_be(bytes, 10);
            let lifetime = read_u32_be(bytes, 12);
            Ok(Response::TCP(MappingResponse::new(epoch, private_port, public_port, lifetime)))
        },
    }
}

} // verus!
