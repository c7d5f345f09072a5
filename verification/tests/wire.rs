use std::time::Duration;

use natpmp::wire::{
    decode_response, encode_port_mapping_request, encode_public_address_request, push_u16_be,
    push_u32_be, read_u16_be, read_u32_be, result_code_error,
};
use natpmp::{Error, Protocol, Response, ResponseType};

/// What a gateway answers to a mapping request that it grants as asked.
fn granted(request: &[u8], epoch: u32) -> [u8; 16] {
    let mut response = [0u8; 16];
    response[0] = request[0];
    response[1] = request[1] + 128;
    response[4..8].copy_from_slice(&epoch.to_be_bytes());
    response[8..16].copy_from_slice(&request[4..12]);
    response
}

#[test]
fn public_address_request_is_two_zero_bytes() {
    assert_eq!(encode_public_address_request(), vec![0u8, 0]);
}

#[test]
fn udp_mapping_request_bytes() {
    assert_eq!(
        encode_port_mapping_request(Protocol::UDP, 4020, 4021, 30),
        vec![0u8, 1, 0, 0, 0x0f, 0xb4, 0x0f, 0xb5, 0, 0, 0, 30]
    );
}

#[test]
fn tcp_mapping_request_bytes() {
    assert_eq!(
        encode_port_mapping_request(Protocol::TCP, 0x1234, 0xabcd, 0x0102_0304),
        vec![0u8, 2, 0, 0, 0x12, 0x34, 0xab, 0xcd, 1, 2, 3, 4]
    );
}

#[test]
fn mapping_request_takes_every_port_and_lifetime() {
    assert_eq!(
        encode_port_mapping_request(Protocol::UDP, 0, 0, 0),
        vec![0u8, 1, 0, 0, 0, 0, 0, 0, 0, 0, 0, 0]
    );
    assert_eq!(
        encode_port_mapping_request(Protocol::TCP, 65535, 65535, u32::MAX),
        vec![0u8, 2, 0, 0, 255, 255, 255, 255, 255, 255, 255, 255]
    );
}

#[test]
fn opcodes_of_the_protocols() {
    assert_eq!(Protocol::UDP.opcode(), 1);
    assert_eq!(Protocol::TCP.opcode(), 2);
}

#[test]
fn numbers_travel_in_network_order() {
    let bytes = [0x12u8, 0x34, 0x56, 0x78, 0x9a];
    assert_eq!(read_u16_be(&bytes, 0), 0x1234);
    assert_eq!(read_u16_be(&bytes, 3), 0x789a);
    assert_eq!(read_u32_be(&bytes, 0), 0x1234_5678);
    assert_eq!(read_u32_be(&bytes, 1), 0x3456_789a);
    let mut out = Vec::new();
    push_u16_be(&mut out, 0xbeef);
    push_u32_be(&mut out, 0xdead_c0de);
    assert_eq!(out, vec![0xbeu8, 0xef, 0xde, 0xad, 0xc0, 0xde]);
    assert_eq!(read_u16_be(&out, 0), 0xbeef);
    assert_eq!(read_u32_be(&out, 2), 0xdead_c0de);
}

#[test]
fn response_kinds_by_opcode() {
    assert_eq!(ResponseType::from_opcode(128), Some(ResponseType::Gateway));
    assert_eq!(ResponseType::from_opcode(129), Some(ResponseType::UDP));
    assert_eq!(ResponseType::from_opcode(130), Some(ResponseType::TCP));
    assert_eq!(ResponseType::from_opcode(127), None);
    assert_eq!(ResponseType::from_opcode(131), None);
    assert_eq!(ResponseType::from_opcode(0), None);
    assert_eq!(ResponseType::from_opcode(1), None);
    assert_eq!(ResponseType::from_opcode(255), None);
}

#[test]
fn result_codes_and_their_errors() {
    assert_eq!(result_code_error(0), None);
    assert_eq!(result_code_error(1), Some(Error::NATPMP_ERR_UNSUPPORTEDVERSION));
    assert_eq!(result_code_error(2), Some(Error::NATPMP_ERR_NOTAUTHORIZED));
    assert_eq!(result_code_error(3), Some(Error::NATPMP_ERR_NETWORKFAILURE));
    assert_eq!(result_code_error(4), Some(Error::NATPMP_ERR_OUTOFRESOURCES));
    assert_eq!(result_code_error(5), Some(Error::NATPMP_ERR_UNSUPPORTEDOPCODE));
    assert_eq!(result_code_error(6), Some(Error::NATPMP_ERR_UNDEFINEDERROR));
    assert_eq!(result_code_error(256), Some(Error::NATPMP_ERR_UNDEFINEDERROR));
    assert_eq!(result_code_error(u16::MAX), Some(Error::NATPMP_ERR_UNDEFINEDERROR));
}

#[test]
fn granted_mapping_comes_back_as_asked() {
    let cases: [(Protocol, u16, u16, u32, u32); 5] = [
        (Protocol::UDP, 4020, 4020, 30, 1000),
        (Protocol::TCP, 14020, 14021, 10, 0),
        (Protocol::UDP, 0, 0, 0, u32::MAX),
        (Protocol::TCP, 65535, 1, u32::MAX, 77),
        (Protocol::UDP, 256, 255, 65536, 16_777_216),
    ];
    for (protocol, private_port, public_port, lifetime, epoch) in cases {
        let request = encode_port_mapping_request(protocol, private_port, public_port, lifetime);
        let decoded = decode_response(&granted(&request, epoch)).unwrap();
        let mapping = match (protocol, decoded) {
            (Protocol::UDP, Response::UDP(mapping)) => mapping,
            (Protocol::TCP, Response::TCP(mapping)) => mapping,
            (_, other) => panic!("a response of another kind: {:?}", other),
        };
        assert_eq!(mapping.epoch(), epoch);
        assert_eq!(mapping.private_port(), private_port);
        assert_eq!(mapping.public_port(), public_port);
        assert_eq!(mapping.lifetime().as_secs(), u64::from(lifetime));
        assert_eq!(mapping.lifetime().subsec_nanos(), 0);
        assert_eq!(*mapping.lifetime(), Duration::from_secs(u64::from(lifetime)));
    }
}

#[test]
fn udp_mapping_scenario() {
    let request = encode_port_mapping_request(Protocol::UDP, 4020, 4020, 30);
    assert_eq!(request.len(), 12);
    let response = [0u8, 0x81, 0, 0, 0, 0, 0x03, 0xe8, 0x0f, 0xb4, 0x0f, 0xb4, 0, 0, 0, 30];
    assert_eq!(response, granted(&request, 1000));
    match decode_response(&response) {
        Ok(Response::UDP(mapping)) => {
            assert_eq!(mapping.epoch(), 1000);
            assert_eq!(mapping.private_port(), 4020);
            assert_eq!(mapping.public_port(), 4020);
            assert_eq!(*mapping.lifetime(), Duration::from_secs(30));
        }
        other => panic!("not a udp mapping response: {:?}", other),
    }
}

#[test]
fn tcp_mapping_response() {
    let response = [0u8, 0x82, 0, 0, 0, 1, 0, 0, 0x36, 0xc4, 0x36, 0xc5, 0, 0, 0x0e, 0x10];
    let decoded = decode_response(&response).unwrap();
    assert_eq!(decoded.response_type(), ResponseType::TCP);
    match decoded {
        Response::TCP(mapping) => {
            assert_eq!(mapping.epoch(), 65536);
            assert_eq!(mapping.private_port(), 14020);
            assert_eq!(mapping.public_port(), 14021);
            assert_eq!(*mapping.lifetime(), Duration::from_secs(3600));
        }
        other => panic!("not a tcp mapping response: {:?}", other),
    }
}

#[test]
fn public_address_scenario() {
    let response = [0u8, 0x80, 0, 0, 0, 0, 0x01, 0xf4, 192, 168, 1, 1, 0, 0, 0, 0];
    let decoded = decode_response(&response).unwrap();
    assert_eq!(decoded.response_type(), ResponseType::Gateway);
    match decoded {
        Response::Gateway(gateway) => {
            assert_eq!(gateway.epoch(), 500);
            assert_eq!(*gateway.public_address(), [192, 168, 1, 1]);
        }
        other => panic!("not a gateway response: {:?}", other),
    }
}

#[test]
fn public_address_ignores_what_follows_it() {
    let response = [0u8, 0x80, 0, 0, 0xff, 0xff, 0xff, 0xff, 10, 0, 0, 138, 9, 9, 9, 9, 9, 9];
    match decode_response(&response) {
        Ok(Response::Gateway(gateway)) => {
            assert_eq!(gateway.epoch(), u32::MAX);
            assert_eq!(*gateway.public_address(), [10, 0, 0, 138]);
        }
        other => panic!("not a gateway response: {:?}", other),
    }
}

#[test]
fn result_code_five_scenario() {
    for opcode in [0x80u8, 0x81, 0x82] {
        let response = [0u8, opcode, 0, 5, 0, 0, 0x03, 0xe8, 0x0f, 0xb4, 0x0f, 0xb4, 0, 0, 0, 30];
        assert_eq!(decode_response(&response), Err(Error::NATPMP_ERR_UNSUPPORTEDOPCODE));
    }
}

#[test]
fn every_result_code_error_through_decode() {
    let expected = [
        (1u16, Error::NATPMP_ERR_UNSUPPORTEDVERSION),
        (2, Error::NATPMP_ERR_NOTAUTHORIZED),
        (3, Error::NATPMP_ERR_NETWORKFAILURE),
        (4, Error::NATPMP_ERR_OUTOFRESOURCES),
        (5, Error::NATPMP_ERR_UNSUPPORTEDOPCODE),
        (6, Error::NATPMP_ERR_UNDEFINEDERROR),
        (0x0100, Error::NATPMP_ERR_UNDEFINEDERROR),
        (0x0105, Error::NATPMP_ERR_UNDEFINEDERROR),
        (0xffff, Error::NATPMP_ERR_UNDEFINEDERROR),
    ];
    for (code, error) in expected {
        let mut response = [0u8; 16];
        response[1] = 0x81;
        response[2..4].copy_from_slice(&code.to_be_bytes());
        response[8] = 1;
        assert_eq!(decode_response(&response), Err(error));
    }
}

#[test]
fn version_is_checked_before_the_result_code() {
    for version in [1u8, 2, 128, 255] {
        for code in [2u8, 3, 4, 5, 9] {
            let response = [version, 0x81, 0, code, 0, 0, 0, 1, 0, 1, 0, 1, 0, 0, 0, 1];
            assert_eq!(decode_response(&response), Err(Error::NATPMP_ERR_UNSUPPORTEDVERSION));
        }
    }
}

#[test]
fn version_is_checked_before_the_opcode() {
    let response = [1u8, 0, 0, 0, 0, 0, 0, 1, 0, 1, 0, 1, 0, 0, 0, 1];
    assert_eq!(decode_response(&response), Err(Error::NATPMP_ERR_UNSUPPORTEDVERSION));
}

#[test]
fn opcode_is_checked_before_the_result_code() {
    for opcode in [0u8, 1, 2, 127, 131, 255] {
        for code in [0u8, 1, 2, 3, 4, 9] {
            let response = [0u8, opcode, 0, code, 0, 0, 0, 1, 0, 1, 0, 1, 0, 0, 0, 1];
            assert_eq!(decode_response(&response), Err(Error::NATPMP_ERR_UNSUPPORTEDOPCODE));
        }
    }
}
