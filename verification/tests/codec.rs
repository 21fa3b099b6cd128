use coap_lite::{MessageClass, Packet, ResponseType};
use golioth_rs::codec::{
    decode_response, encode_request, ContentFormat, Message, MessageType, RequestMethod,
    MAX_DATAGRAM_SIZE, MAX_TOKEN_LENGTH,
};
use golioth_rs::errors::{CodecError, Error};

fn read_of(path: &str, token: Vec<u8>) -> Message {
    Message {
        message_id: 0x1234,
        message_type: MessageType::Confirmable,
        method: RequestMethod::Get,
        token,
        path: path.to_string(),
        content_format: ContentFormat::ApplicationJson,
        payload: Vec::new(),
    }
}

fn write_of(path: &str, token: Vec<u8>, payload: Vec<u8>) -> Message {
    Message {
        message_id: 0xfffe,
        message_type: MessageType::NonConfirmable,
        method: RequestMethod::Post,
        token,
        path: path.to_string(),
        content_format: ContentFormat::ApplicationJson,
        payload,
    }
}

#[test]
fn a_read_is_framed_byte_for_byte() {
    let datagram = encode_request(&read_of(".d/led", vec![1, 2, 3, 4, 5, 6, 7, 8])).unwrap();
    let expected: Vec<u8> = vec![
        0x48, 0x01, 0x12, 0x34, // version 1, confirmable, token of 8; GET; message id
        1, 2, 3, 4, 5, 6, 7, 8, // token
        0xb2, b'.', b'd', // path segment
        0x03, b'l', b'e', b'd', // path segment
        0x11, 50, // content format: JSON
    ];
    assert_eq!(datagram, expected);
}

#[test]
fn a_write_is_framed_byte_for_byte() {
    let datagram =
        encode_request(&write_of(".s/data", vec![0xaa, 0xbb], b"{\"t\":1}".to_vec())).unwrap();
    let mut expected: Vec<u8> = vec![
        0x52, 0x02, 0xff, 0xfe, // version 1, non-confirmable, token of 2; POST; message id
        0xaa, 0xbb, // token
        0xb2, b'.', b's', // path segment
        0x04, b'd', b'a', b't', b'a', // path segment
        0x11, 50,   // content format: JSON
        0xff, // payload marker
    ];
    expected.extend_from_slice(b"{\"t\":1}");
    assert_eq!(datagram, expected);
}

#[test]
fn an_empty_token_is_allowed() {
    let datagram = encode_request(&write_of(".d/x", Vec::new(), b"1".to_vec())).unwrap();
    assert_eq!(datagram[0], 0x50);
    let packet = Packet::from_bytes(&datagram).unwrap();
    assert!(packet.get_token().is_empty());
    assert_eq!(packet.payload, b"1".to_vec());
}

#[test]
fn a_token_of_nine_bytes_is_refused() {
    assert_eq!(MAX_TOKEN_LENGTH, 8);
    assert_eq!(
        encode_request(&read_of(".d/x", vec![0; 9])),
        Err(Error::Encoding(CodecError::InvalidTokenLength))
    );
    assert_eq!(
        encode_request(&read_of(".d/x", vec![0; 300])),
        Err(Error::Encoding(CodecError::InvalidTokenLength))
    );
    assert!(encode_request(&read_of(".d/x", vec![0; 8])).is_ok());
}

#[test]
fn a_message_that_does_not_fit_is_refused() {
    assert_eq!(MAX_DATAGRAM_SIZE, 1280);
    // header 4, token 8, path 3 + 2, content format 2, marker 1: 20 bytes around the payload
    let fits = write_of(".d/x", vec![7; 8], vec![b'1'; 1260]);
    let datagram = encode_request(&fits).unwrap();
    assert_eq!(datagram.len(), 1280);
    let too_long = write_of(".d/x", vec![7; 8], vec![b'1'; 1261]);
    assert_eq!(
        encode_request(&too_long),
        Err(Error::Encoding(CodecError::InvalidPacketLength))
    );
    let long_path = "a/".repeat(700);
    assert_eq!(
        encode_request(&read_of(&long_path, vec![7; 8])),
        Err(Error::Encoding(CodecError::InvalidPacketLength))
    );
}

#[test]
fn what_is_framed_can_be_read_back() {
    let message = write_of(".d/led", vec![9, 8, 7, 6, 5, 4, 3, 2], b"{\"blue\":true}".to_vec());
    let datagram = encode_request(&message).unwrap();
    let response = decode_response(&datagram).unwrap();
    assert_eq!(response.message_id, 0xfffe);
    assert_eq!(response.code, 0x02);
    assert_eq!(response.token, message.token);
    assert_eq!(response.payload, message.payload);
}

#[test]
fn a_response_is_read_out_of_its_datagram() {
    let datagram: Vec<u8> = vec![
        0x62, 0x45, 0x00, 0x2a, // acknowledgement, token of 2; 2.05 Content; message id 42
        0x10, 0x20, // token
        0xc1, 50,   // content format
        0xff, b'4', b'2',
    ];
    let response = decode_response(&datagram).unwrap();
    assert_eq!(response.message_id, 42);
    assert_eq!(response.code, 0x45);
    assert_eq!(response.token, vec![0x10, 0x20]);
    assert_eq!(response.payload, b"42".to_vec());
}

#[test]
fn a_response_of_the_store_is_read_as_coap_lite_wrote_it() {
    let mut packet = Packet::new();
    packet.header.code = MessageClass::Response(ResponseType::Content);
    packet.header.message_id = 0xbeef;
    packet.set_token(vec![1, 1, 2, 3, 5, 8, 13, 21]);
    packet.payload = b"{\"desired\":false}".to_vec();
    let response = decode_response(&packet.to_bytes().unwrap()).unwrap();
    assert_eq!(response.message_id, 0xbeef);
    assert_eq!(response.code, 0x45);
    assert_eq!(response.token, vec![1, 1, 2, 3, 5, 8, 13, 21]);
    assert_eq!(response.payload, b"{\"desired\":false}".to_vec());
}

#[test]
fn a_datagram_without_payload_gives_an_empty_payload() {
    let response = decode_response(&[0x60, 0x44, 0x00, 0x01]).unwrap();
    assert_eq!(response.code, 0x44);
    assert!(response.token.is_empty());
    assert!(response.payload.is_empty());
}

#[test]
fn a_datagram_shorter_than_a_header_is_refused() {
    for length in 0..4 {
        assert_eq!(
            decode_response(&vec![0x40; length]),
            Err(Error::Decoding(CodecError::InvalidHeader))
        );
    }
}

#[test]
fn a_token_that_is_cut_short_or_too_long_is_refused() {
    assert_eq!(
        decode_response(&[0x48, 0x45, 0x00, 0x01, 1, 2, 3]),
        Err(Error::Decoding(CodecError::InvalidTokenLength))
    );
    assert_eq!(
        decode_response(&[0x49, 0x45, 0x00, 0x01, 1, 2, 3, 4, 5, 6, 7, 8, 9, 10]),
        Err(Error::Decoding(CodecError::InvalidTokenLength))
    );
}

#[test]
fn broken_options_are_refused() {
    // an option that announces more bytes than there are
    assert_eq!(
        decode_response(&[0x40, 0x45, 0x00, 0x01, 0xb5, b'a']),
        Err(Error::Decoding(CodecError::InvalidOptionLength))
    );
    // the reserved option delta
    assert_eq!(
        decode_response(&[0x40, 0x45, 0x00, 0x01, 0xf1, b'a']),
        Err(Error::Decoding(CodecError::InvalidOptionDelta))
    );
}

#[test]
fn every_code_byte_is_read_as_it_stands() {
    for code in 0..=255u8 {
        let response = decode_response(&[0x61, code, 0x12, 0x34, 0x99]).unwrap();
        assert_eq!(response.code, code);
        assert_eq!(response.message_id, 0x1234);
        assert_eq!(response.token, vec![0x99]);
    }
}

#[test]
fn a_datagram_without_options_always_parses() {
    for token_length in 0..=8u8 {
        let mut datagram = vec![0x40 | token_length, 0x45, 0, 1];
        datagram.extend((0..token_length).map(|byte| byte + 1));
        let bare = decode_response(&datagram).unwrap();
        assert_eq!(bare.token.len(), token_length as usize);
        assert!(bare.payload.is_empty());
        datagram.push(0xff);
        assert!(decode_response(&datagram).unwrap().payload.is_empty());
        datagram.extend_from_slice(b"null");
        assert_eq!(decode_response(&datagram).unwrap().payload, b"null".to_vec());
    }
}
