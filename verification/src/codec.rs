//! Framing of requests into datagrams and of datagrams into responses.
//!
//! The wire format is CoAP, and `coap_lite` does the framing. What the rest of
//! the crate relies on is stated here over the bytes of a datagram: where the
//! message id and the token stand, and how long a datagram may be.

use crate::errors::{CodecError, Error};
use coap_lite::error::MessageError;
use coap_lite::{CoapRequest, Packet, RequestType};
use vstd::endian::{endianness, Endian};
use vstd::prelude::*;

verus! {

/// No datagram is longer than this; nothing is fragmented.
pub const MAX_DATAGRAM_SIZE: usize = 1280;

/// A token has at most this many bytes.
pub const MAX_TOKEN_LENGTH: usize = 8;

/// The byte that stands between the options and the payload.
pub const PAYLOAD_MARKER: u8 = 0xff;

/// The two methods that the client uses.
#[derive(Debug, Clone, Copy, PartialEq, Eq, Structural)]
pub enum RequestMethod {
    Get,
    Post,
}

/// Whether the sender asks the transport for an acknowledgement.
#[derive(Debug, Clone, Copy, PartialEq, Eq, Structural)]
pub enum MessageType {
    Confirmable,
    NonConfirmable,
}

/// How the payload is encoded. Records travel as JSON and as nothing else.
#[derive(Debug, Clone, Copy, PartialEq, Eq, Structural)]
pub enum ContentFormat {
    ApplicationJson,
}

/// A request as the client composes it, before framing.
#[derive(Debug, Clone, PartialEq, Eq)]
pub struct Message {
    pub message_id: u16,
    pub message_type: MessageType,
    pub method: RequestMethod,
    pub token: Vec<u8>,
    pub path: String,
    pub content_format: ContentFormat,
    pub payload: Vec<u8>,
}

/// A [`Message`] as a mathematical value.
pub struct MessageView {
    pub message_id: u16,
    pub message_type: MessageType,
    pub method: RequestMethod,
    pub token: Seq<u8>,
    pub path: Seq<char>,
    pub content_format: ContentFormat,
    pub payload: Seq<u8>,
}

impl View for Message {
    type V = MessageView;

    open spec fn view(&self) -> MessageView {
        MessageView {
            message_id: self.message_id,
            message_type: self.message_type,
            method: self.method,
            token: self.token@,
            path: self.path@,
            content_format: self.content_format,
            payload: self.payload@,
        }
    }
}

/// What the client reads out of a received datagram.
#[derive(Debug, Clone, PartialEq, Eq)]
pub struct Response {
    pub message_id: u16,
    /// The status, as the code byte of the header.
    pub code: u8,
    pub token: Vec<u8>,
    pub payload: Vec<u8>,
}

/// A [`Response`] as a mathematical value.
pub struct ResponseView {
    pub message_id: u16,
    pub code: u8,
    pub token: Seq<u8>,
    pub payload: Seq<u8>,
}

impl View for Response {
    type V = ResponseView;

    open spec fn view(&self) -> ResponseView {
        ResponseView {
            message_id: self.message_id,
            code: self.code,
            token: self.token@,
            payload: self.payload@,
        }
    }
}

/// The number that the header carries for a message type.
pub open spec fn type_code(message_type: MessageType) -> int {
    match message_type {
        MessageType::Confirmable => 0,
        MessageType::NonConfirmable => 1,
    }
}

/// The code byte of a request with the given method.
pub open spec fn method_code(method: RequestMethod) -> int {
    match method {
        RequestMethod::Get => 1,
        RequestMethod::Post => 2,
    }
}

/// The token length that the first byte of a datagram announces: its low four
/// bits.
pub open spec fn token_length_field(datagram: Seq<u8>) -> int
    recommends
        datagram.len() >= 1,
{
    datagram[0] as int % 16
}

/// A datagram that holds a whole header and the token that the header
/// announces, the token being of a permitted length.
pub open spec fn well_framed(datagram: Seq<u8>) -> bool {
    &&& datagram.len() >= 4
    &&& token_length_field(datagram) <= MAX_TOKEN_LENGTH
    &&& 4 + token_length_field(datagram) <= datagram.len()
}

/// The message id of a datagram: its third and fourth byte, high byte first.
pub open spec fn wire_message_id(datagram: Seq<u8>) -> int
    recommends
        datagram.len() >= 4,
{
    datagram[2] as int * 256 + datagram[3] as int
}

/// The token of a datagram: the bytes that follow the four bytes of the header,
/// as many as the header announces.
pub open spec fn wire_token(datagram: Seq<u8>) -> Seq<u8>
    recommends
        well_framed(datagram),
{
    datagram.subrange(4, 4 + token_length_field(datagram))
}

/// What holds of a datagram into which `message` was framed.
pub open spec fn carries_header_of(datagram: Seq<u8>, message: MessageView) -> bool {
    &&& 4 + message.token.len() <= datagram.len() <= MAX_DATAGRAM_SIZE
    &&& datagram[0] == 64 + 16 * type_code(message.message_type) + message.token.len()
    &&& datagram[1] == method_code(message.method)
    &&& wire_message_id(datagram) == message.message_id
    &&& datagram.subrange(4, 4 + message.token.len() as int) == message.token
}

/// What holds of a response that was read out of `datagram`.
pub open spec fn read_out_of(datagram: Seq<u8>, response: ResponseView) -> bool {
    &&& well_framed(datagram)
    &&& response.message_id == wire_message_id(datagram)
    &&& response.code == datagram[1]
    &&& response.token == wire_token(datagram)
    &&& exists|start: int|
        4 + token_length_field(datagram) <= start <= datagram.len() && response.payload
            == #[trigger] datagram.subrange(start, datagram.len() as int)
}

/// A well-framed datagram without options: behind the token the datagram
/// ends, or the marker of the payload stands.
pub open spec fn is_plain(datagram: Seq<u8>) -> bool {
    &&& well_framed(datagram)
    &&& (datagram.len() == 4 + token_length_field(datagram) || datagram[4 + token_length_field(
        datagram,
    )] == PAYLOAD_MARKER)
}

/// The payload of a plain datagram: what stands behind the marker.
pub open spec fn plain_payload(datagram: Seq<u8>) -> Seq<u8>
    recommends
        is_plain(datagram),
{
    if datagram.len() <= 5 + token_length_field(datagram) {
        Seq::empty()
    } else {
        datagram.subrange(5 + token_length_field(datagram), datagram.len() as int)
    }
}

/// What holds of the reason for which `datagram` was refused.
pub open spec fn refused_for(datagram: Seq<u8>, reason: CodecError) -> bool {
    &&& reason == CodecError::InvalidHeader <==> datagram.len() < 4
    &&& reason == CodecError::InvalidTokenLength <==> datagram.len() >= 4 && !well_framed(datagram)
    &&& reason != CodecError::InvalidPacketLength
}

/// What is known of the outcome of parsing `datagram` without parsing its
/// options: a response comes only out of a well-framed datagram and holds the
/// message id, the code and the token of its first bytes and, as payload, what
/// stands at its end; a plain datagram is never refused, and its payload is
/// read whole; a refusal names the header exactly when the datagram has fewer
/// than four bytes, the token length exactly when the header is there and the
/// token is not, and never the packet length.
pub open spec fn parsed_as(datagram: Seq<u8>, outcome: Result<ResponseView, CodecError>) -> bool {
    &&& outcome matches Ok(response) ==> read_out_of(datagram, response)
    &&& outcome matches Err(reason) ==> refused_for(datagram, reason)
    &&& is_plain(datagram) ==> (outcome matches Ok(response) && response.payload == plain_payload(
        datagram,
    ))
}

/// What `coap_lite` makes of a datagram on a machine of the given byte order:
/// the response, or the reason for refusing the datagram.
///
/// The byte order matters to `coap_lite` where an option number or an option
/// length is extended by two bytes; nothing else of a datagram is read through
/// it.
pub uninterp spec fn coap_packet(datagram: Seq<u8>, big_endian: bool) -> Result<
    ResponseView,
    CodecError,
>;

/// What `coap_lite` makes of a datagram on this machine.
pub open spec fn decoding_of(datagram: Seq<u8>) -> Result<ResponseView, CodecError> {
    coap_packet(datagram, endianness() is Big)
}

/// The outcome of parsing as a mathematical value.
pub open spec fn outcome_view(decoded: Result<Response, CodecError>) -> Result<
    ResponseView,
    CodecError,
> {
    match decoded {
        Ok(response) => Ok(response@),
        Err(reason) => Err(reason),
    }
}

/// The datagram that `coap_lite` makes of a request, or `None` where it makes
/// none.
pub uninterp spec fn coap_request_bytes(message: MessageView) -> Option<Seq<u8>>;

/// Builds a `coap_lite` request with the fields of `message` and asks
/// `Packet::to_bytes` for its bytes.
///
/// Trusted: the result is what `coap_request_bytes` names. Of the bytes it is
/// claimed that they start with the header and the token as `coap_lite` writes
/// them (version 1, the type, the token length; the code; the message id, high
/// byte first) and that there are no more than `Packet::MAX_SIZE` of them, which
/// is the one condition on which `to_bytes` refuses.
#[verifier::external_body]
fn packet_to_bytes(message: &Message) -> (bytes: Option<Vec<u8>>)
    requires
        message.token@.len() <= MAX_TOKEN_LENGTH,
    ensures
        bytes matches Some(b) ==> coap_request_bytes(message@) == Some(b@) && carries_header_of(
            b@,
            message@,
        ),
        bytes is None ==> coap_request_bytes(message@) is None,
{
    let mut request: CoapRequest<()> = CoapRequest::new();
    request.message.header.message_id = message.message_id;
    request.message.header.set_type(match message.message_type {
        MessageType::Confirmable => coap_lite::MessageType::Confirmable,
        MessageType::NonConfirmable => coap_lite::MessageType::NonConfirmable,
    });
    let method = match message.method { RequestMethod::Get => RequestType::Get, RequestMethod::Post => RequestType::Post };
    request.set_method(method);
    request.message.set_token(message.token.clone());
    request.set_path(message.path.as_str());
    let format = match message.content_format { ContentFormat::ApplicationJson => coap_lite::ContentFormat::ApplicationJSON };
    request.message.set_content_format(format);
    request.message.payload = message.payload.clone();
    request.message.to_bytes().ok()
}

/// Asks `Packet::from_bytes` to parse `datagram` and moves the message id, the
/// code, the token and the payload of the packet into a [`Response`].
///
/// Trusted: the outcome is what `coap_packet` names for this machine's byte
/// order, and of it holds what [`parsed_as`] says, which is what `from_bytes`
/// does before it comes to the options and after it is through with them.
#[verifier::external_body]
pub(crate) fn packet_from_bytes(datagram: &[u8]) -> (decoded: Result<Response, CodecError>)
    ensures
        outcome_view(decoded) == coap_packet(datagram@, endianness() is Big),
        parsed_as(datagram@, outcome_view(decoded)),
{
    match Packet::from_bytes(datagram) {
        Ok(packet) => Ok(
            Response {
                message_id: packet.header.message_id,
                code: packet.header.code.into(),
                token: packet.get_token().to_vec(),
                payload: packet.payload,
            },
        ),
        Err(MessageError::InvalidHeader) => Err(CodecError::InvalidHeader),
        Err(MessageError::InvalidPacketLength) => Err(CodecError::InvalidPacketLength),
        Err(MessageError::InvalidTokenLength) => Err(CodecError::InvalidTokenLength),
        Err(MessageError::InvalidOptionDelta) => Err(CodecError::InvalidOptionDelta),
        Err(MessageError::InvalidOptionLength) => Err(CodecError::InvalidOptionLength),
    }
}

/// The outcome of framing a request: the bytes, or the reason for which there
/// are none.
pub open spec fn encoding_of(message: MessageView) -> Result<Seq<u8>, Error> {
    if message.token.len() > MAX_TOKEN_LENGTH {
        Err(Error::Encoding(CodecError::InvalidTokenLength))
    } else {
        match coap_request_bytes(message) {
            Some(bytes) => Ok(bytes),
            None => Err(Error::Encoding(CodecError::InvalidPacketLength)),
        }
    }
}

/// Frames a request into one datagram.
///
/// A token of more than eight bytes is refused, and so is a message that would
/// not fit into a datagram of [`MAX_DATAGRAM_SIZE`] bytes.
pub fn encode_request(message: &Message) -> (encoded: Result<Vec<u8>, Error>)
    ensures
        match encoded {
            Ok(datagram) => encoding_of(message@) == Ok::<Seq<u8>, Error>(datagram@)
                && carries_header_of(datagram@, message@),
            Err(error) => encoding_of(message@) == Err::<Seq<u8>, Error>(error),
        },
{
    if message.token.len() > MAX_TOKEN_LENGTH {
        return Err(Error::Encoding(CodecError::InvalidTokenLength));
    }
    match packet_to_bytes(message) {
        Some(datagram) => Ok(datagram),
        None => Err(Error::Encoding(CodecError::InvalidPacketLength)),
    }
}

/// Parses a received datagram.
///
/// The outcome is `coap_lite`'s. It succeeds only on a well-framed datagram, and
/// then gives the message id, the code and the token that the datagram's first
/// bytes hold and the payload that stands at its end. A well-framed datagram
/// without options always parses. A datagram that is too short for a header or
/// for its token is always refused, and the error says which of the two it was.
pub fn decode_response(datagram: &[u8]) -> (decoded: Result<Response, Error>)
    ensures
        match decoded {
            Ok(response) => decoding_of(datagram@) == Ok::<ResponseView, CodecError>(response@),
            Err(error) => error matches Error::Decoding(reason) && decoding_of(datagram@) == Err::<
                ResponseView,
                CodecError,
            >(reason),
        },
        parsed_as(datagram@, decoding_of(datagram@)),
{
    match packet_from_bytes(datagram) {
        Ok(response) => Ok(response),
        Err(reason) => Err(Error::Decoding(reason)),
    }
}

/// A datagram into which a request was framed is well framed, and the token that
/// it carries is the token of the request.
pub proof fn lemma_request_carries_its_token(datagram: Seq<u8>, message: MessageView)
    requires
        message.token.len() <= MAX_TOKEN_LENGTH,
        carries_header_of(datagram, message),
    ensures
        well_framed(datagram),
        wire_token(datagram) == message.token,
        wire_message_id(datagram) == message.message_id,
{
}

} // verus!
