//! The client: writes that are sent and forgotten, and reads that wait for
//! their response.
//!
//! The client owns no channel. A write gives the caller the datagram to send.
//! A read gives the datagram to send and starts the wait; the caller then
//! hands over what the channel produces, one event at a time, until the client
//! says that the read is settled.

use crate::codec::{
    carries_header_of, coap_request_bytes, decode_response, decoding_of, encode_request,
    encoding_of, is_plain, parsed_as, plain_payload, well_framed, wire_token, ContentFormat,
    Message, MessageType, MessageView, RequestMethod, ResponseView,
};
use crate::correlator::{
    settling_payload, state_after, step_answers, CorrelatorState, Event, ResponseCorrelator, Step,
};
use crate::errors::{CodecError, Error};
use crate::path::{formatted_path, get_formatted_path, LightDBType};
use crate::token::{TokenGenerator, TOKEN_LENGTH};
use vstd::prelude::*;
use vstd::slice::slice_to_vec;

verus! {

/// How long a read waits for its response, in seconds.
pub const READ_TIMEOUT_SECS: u64 = 2;

/// The message id that follows `message_id`: one more, and zero after the
/// largest.
pub open spec fn message_id_after(message_id: u16) -> u16 {
    if message_id == u16::MAX {
        0
    } else {
        (message_id + 1) as u16
    }
}

/// The message id that is reached from `start` after `count` operations.
pub open spec fn message_id_after_many(start: u16, count: nat) -> u16
    decreases count,
{
    if count == 0 {
        start
    } else {
        message_id_after(message_id_after_many(start, (count - 1) as nat))
    }
}

/// The request that reads the record at `path`: a confirmable `Get` without
/// payload.
pub open spec fn read_message(
    message_id: u16,
    read_type: LightDBType,
    path: Seq<char>,
    token: Seq<u8>,
) -> MessageView {
    MessageView {
        message_id,
        message_type: MessageType::Confirmable,
        method: RequestMethod::Get,
        token,
        path: formatted_path(read_type, path),
        content_format: ContentFormat::ApplicationJson,
        payload: Seq::empty(),
    }
}

/// The request that writes `payload` to the record at `path`: a `Post` for
/// which no confirmation is asked.
pub open spec fn write_message(
    message_id: u16,
    write_type: LightDBType,
    path: Seq<char>,
    token: Seq<u8>,
    payload: Seq<u8>,
) -> MessageView {
    MessageView {
        message_id,
        message_type: MessageType::NonConfirmable,
        method: RequestMethod::Post,
        token,
        path: formatted_path(write_type, path),
        content_format: ContentFormat::ApplicationJson,
        payload,
    }
}

/// The client's side of the exchange with the store.
pub struct Golioth {
    message_id: u16,
    tokens: TokenGenerator,
    correlator: ResponseCorrelator,
}

impl Golioth {
    /// The message id that the next request will carry.
    pub closed spec fn next_message_id(&self) -> u16 {
        self.message_id
    }

    /// Where the wait for a response stands.
    pub closed spec fn read_state(&self) -> CorrelatorState {
        self.correlator.state()
    }

    /// The token of the read that was started last.
    pub closed spec fn awaited_token(&self) -> Seq<u8> {
        self.correlator.token()
    }

    /// The seconds that the read started last may wait for its response.
    pub closed spec fn read_deadline(&self) -> u64 {
        self.correlator.deadline()
    }

    /// Whether a read is outstanding.
    pub open spec fn is_awaiting(&self) -> bool {
        self.read_state() == CorrelatorState::AwaitingMatch
    }

    /// A client that has sent nothing and waits for nothing.
    pub fn new() -> (client: Golioth)
        ensures
            client.next_message_id() == 0,
            client.read_state() == CorrelatorState::Idle,
    {
        Golioth { message_id: 0, tokens: TokenGenerator::new(), correlator: ResponseCorrelator::new() }
    }

    /// Where the wait for a response stands.
    pub fn current_state(&self) -> (state: CorrelatorState)
        ensures
            state == self.read_state(),
    {
        self.correlator.current_state()
    }

    /// The seconds that the read started last may wait for its response,
    /// counted from the sending of its request. When they have passed, the
    /// caller reports [`Event::DeadlineElapsed`].
    pub fn deadline_secs(&self) -> (deadline: u64)
        ensures
            deadline == self.read_deadline(),
    {
        self.correlator.deadline_secs()
    }

    fn take_message_id(&mut self) -> (message_id: u16)
        ensures
            message_id == old(self).next_message_id(),
            final(self).next_message_id() == message_id_after(message_id),
            final(self).read_state() == old(self).read_state(),
            final(self).awaited_token() == old(self).awaited_token(),
            final(self).read_deadline() == old(self).read_deadline(),
    {
        let message_id = self.message_id;
        self.message_id = message_id.wrapping_add(1);
        message_id
    }

    /// Frames the write of `payload` to the record at `path`, with the given
    /// token. The message id is used up whether or not the framing succeeds,
    /// and the wait for a response is not touched.
    pub fn write_request(
        &mut self,
        write_type: LightDBType,
        path: &str,
        payload: &[u8],
        token: Vec<u8>,
    ) -> (request: Result<Vec<u8>, Error>)
        ensures
            final(self).next_message_id() == message_id_after(old(self).next_message_id()),
            final(self).read_state() == old(self).read_state(),
            final(self).awaited_token() == old(self).awaited_token(),
            final(self).read_deadline() == old(self).read_deadline(),
            ({
                let message = write_message(
                    old(self).next_message_id(),
                    write_type,
                    path@,
                    token@,
                    payload@,
                );
                match request {
                    Ok(datagram) => encoding_of(message) == Ok::<Seq<u8>, Error>(datagram@)
                        && carries_header_of(datagram@, message),
                    Err(error) => encoding_of(message) == Err::<Seq<u8>, Error>(error),
                }
            }),
    {
        let message = Message {
            message_id: self.take_message_id(),
            message_type: MessageType::NonConfirmable,
            method: RequestMethod::Post,
            token,
            path: get_formatted_path(write_type, path),
            content_format: ContentFormat::ApplicationJson,
            payload: slice_to_vec(payload),
        };
        encode_request(&message)
    }

    /// Frames the read of the record at `path`, with the given token, and
    /// starts the wait for a response with that token. The message id is used
    /// up whether or not the framing succeeds; where it fails, no wait is
    /// started.
    ///
    /// One read at a time: no read may be started while another is outstanding.
    pub fn read_request(&mut self, read_type: LightDBType, path: &str, token: Vec<u8>) -> (request:
        Result<Vec<u8>, Error>)
        requires
            !old(self).is_awaiting(),
        ensures
            final(self).next_message_id() == message_id_after(old(self).next_message_id()),
            ({
                let message = read_message(old(self).next_message_id(), read_type, path@, token@);
                match request {
                    Ok(datagram) => {
                        &&& encoding_of(message) == Ok::<Seq<u8>, Error>(datagram@)
                        &&& carries_header_of(datagram@, message)
                        &&& final(self).read_state() == CorrelatorState::AwaitingMatch
                        &&& final(self).awaited_token() == token@
                        &&& final(self).read_deadline() == READ_TIMEOUT_SECS
                    },
                    Err(error) => {
                        &&& encoding_of(message) == Err::<Seq<u8>, Error>(error)
                        &&& final(self).read_state() == old(self).read_state()
                        &&& final(self).awaited_token() == old(self).awaited_token()
                    },
                }
            }),
    {
        let message = Message {
            message_id: self.take_message_id(),
            message_type: MessageType::Confirmable,
            method: RequestMethod::Get,
            token,
            path: get_formatted_path(read_type, path),
            content_format: ContentFormat::ApplicationJson,
            payload: Vec::new(),
        };
        let request = encode_request(&message);
        if request.is_ok() {
            self.correlator.begin(message.token, READ_TIMEOUT_SECS);
        }
        request
    }

    /// Writes a record: gives the datagram to send, with a fresh token, and
    /// waits for nothing. No confirmation is asked for, so a datagram that is
    /// lost is lost.
    ///
    /// `payload` is the record as JSON. The only failure is a record that does
    /// not fit into one datagram.
    pub fn lightdb_write(&mut self, write_type: LightDBType, path: &str, payload: &[u8]) -> (request:
        Result<Vec<u8>, Error>)
        ensures
            final(self).next_message_id() == message_id_after(old(self).next_message_id()),
            final(self).read_state() == old(self).read_state(),
            final(self).awaited_token() == old(self).awaited_token(),
            final(self).read_deadline() == old(self).read_deadline(),
            match request {
                Ok(datagram) => {
                    let message = write_message(
                        old(self).next_message_id(),
                        write_type,
                        path@,
                        wire_token(datagram@),
                        payload@,
                    );
                    &&& wire_token(datagram@).len() == TOKEN_LENGTH
                    &&& encoding_of(message) == Ok::<Seq<u8>, Error>(datagram@)
                    &&& carries_header_of(datagram@, message)
                },
                Err(error) => {
                    &&& error == Error::Encoding(CodecError::InvalidPacketLength)
                    &&& exists|token: Seq<u8>|
                        token.len() == TOKEN_LENGTH && coap_request_bytes(
                            #[trigger] write_message(
                                old(self).next_message_id(),
                                write_type,
                                path@,
                                token,
                                payload@,
                            ),
                        ) is None
                },
            },
    {
        let token = self.tokens.create_token();
        let ghost token_view = token@;
        let request = self.write_request(write_type, path, payload, token);
        proof {
            let message = write_message(
                old(self).next_message_id(),
                write_type,
                path@,
                token_view,
                payload@,
            );
            if request is Err {
                assert(coap_request_bytes(message) is None);
            }
        }
        request
    }

    /// Starts a read: gives the datagram to send, with a fresh token, and
    /// waits for the response with that token from then on. The caller sends
    /// the datagram and hands what the channel produces to
    /// [`Golioth::handle_response`] and [`Golioth::handle_event`] until the read
    /// is settled; after [`READ_TIMEOUT_SECS`] seconds without a response it
    /// hands over [`Event::DeadlineElapsed`].
    ///
    /// One read at a time: no read may be started while another is outstanding.
    /// The only failure is a path that does not fit into one datagram; no wait
    /// is started then.
    pub fn lightdb_read(&mut self, read_type: LightDBType, path: &str) -> (request: Result<
        Vec<u8>,
        Error,
    >)
        requires
            !old(self).is_awaiting(),
        ensures
            final(self).next_message_id() == message_id_after(old(self).next_message_id()),
            match request {
                Ok(datagram) => {
                    let message = read_message(
                        old(self).next_message_id(),
                        read_type,
                        path@,
                        final(self).awaited_token(),
                    );
                    &&& final(self).read_state() == CorrelatorState::AwaitingMatch
                    &&& final(self).read_deadline() == READ_TIMEOUT_SECS
                    &&& final(self).awaited_token().len() == TOKEN_LENGTH
                    &&& wire_token(datagram@) == final(self).awaited_token()
                    &&& encoding_of(message) == Ok::<Seq<u8>, Error>(datagram@)
                    &&& carries_header_of(datagram@, message)
                },
                Err(error) => {
                    &&& error == Error::Encoding(CodecError::InvalidPacketLength)
                    &&& final(self).read_state() == old(self).read_state()
                    &&& final(self).awaited_token() == old(self).awaited_token()
                    &&& exists|token: Seq<u8>|
                        token.len() == TOKEN_LENGTH && coap_request_bytes(
                            #[trigger] read_message(
                                old(self).next_message_id(),
                                read_type,
                                path@,
                                token,
                            ),
                        ) is None
                },
            },
    {
        let token = self.tokens.create_token();
        let ghost token_view = token@;
        let request = self.read_request(read_type, path, token);
        proof {
            let message = read_message(old(self).next_message_id(), read_type, path@, token_view);
            if request is Err {
                assert(coap_request_bytes(message) is None);
            }
        }
        request
    }

    /// Takes one event of the channel, or of the clock beside it, and says what
    /// to do next: see [`ResponseCorrelator::step`].
    pub fn handle_event(&mut self, event: Event) -> (step: Step)
        ensures
            final(self).read_state() == state_after(
                old(self).read_state(),
                old(self).awaited_token(),
                event,
            ),
            final(self).awaited_token() == old(self).awaited_token(),
            final(self).read_deadline() == old(self).read_deadline(),
            final(self).next_message_id() == old(self).next_message_id(),
            step_answers(step, old(self).read_state(), old(self).awaited_token(), event),
    {
        self.correlator.step(event)
    }

    /// Takes one received datagram and says what to do next: see
    /// [`ResponseCorrelator::on_datagram`].
    ///
    /// A read is settled only by a datagram that carries the token of that very
    /// read, and what it returns is the payload of that datagram.
    pub fn handle_response(&mut self, datagram: &[u8]) -> (step: Step)
        ensures
            final(self).awaited_token() == old(self).awaited_token(),
            final(self).read_deadline() == old(self).read_deadline(),
            final(self).next_message_id() == old(self).next_message_id(),
            !old(self).is_awaiting() ==> step is Idle && final(self).read_state() == old(
                self,
            ).read_state(),
            old(self).is_awaiting() ==> match settling_payload(
                old(self).awaited_token(),
                datagram@,
            ) {
                Some(settling) => step matches Step::Deliver(payload) && payload@ == settling
                    && final(self).read_state() == CorrelatorState::Matched,
                None => step is Wait && final(self).read_state() == CorrelatorState::AwaitingMatch,
            },
            parsed_as(datagram@, decoding_of(datagram@)),
            !well_framed(datagram@) || wire_token(datagram@) != old(self).awaited_token() ==> !(step
                is Deliver),
            old(self).is_awaiting() && is_plain(datagram@) && wire_token(datagram@) == old(
                self,
            ).awaited_token() ==> (step matches Step::Deliver(payload) && payload@
                == plain_payload(datagram@)),
    {
        self.correlator.on_datagram(datagram)
    }
}

/// Frames the read of the state record at `path` for an exchange without
/// correlation: message id zero and no token. The response is whatever datagram
/// comes next; [`lightdb_get_raw`] takes its payload out.
pub fn lightdb_get_request(path: &str) -> (request: Result<Vec<u8>, Error>)
    ensures
        ({
            let message = read_message(0, LightDBType::State, path@, Seq::empty());
            match request {
                Ok(datagram) => encoding_of(message) == Ok::<Seq<u8>, Error>(datagram@)
                    && carries_header_of(datagram@, message),
                Err(error) => error == Error::Encoding(CodecError::InvalidPacketLength)
                    && coap_request_bytes(message) is None,
            }
        }),
{
    let message = Message {
        message_id: 0,
        message_type: MessageType::Confirmable,
        method: RequestMethod::Get,
        token: Vec::new(),
        path: get_formatted_path(LightDBType::State, path),
        content_format: ContentFormat::ApplicationJson,
        payload: Vec::new(),
    };
    encode_request(&message)
}

/// Takes the payload out of the datagram that answered a read without
/// correlation. No token is looked at: the datagram is taken for the response
/// if it parses.
pub fn lightdb_get_raw(datagram: &[u8]) -> (payload: Result<Vec<u8>, Error>)
    ensures
        match payload {
            Ok(payload) => decoding_of(datagram@) matches Ok(response) && payload@
                == response.payload,
            Err(error) => error matches Error::Decoding(reason) && decoding_of(datagram@) == Err::<
                ResponseView,
                CodecError,
            >(reason),
        },
        parsed_as(datagram@, decoding_of(datagram@)),
{
    match decode_response(datagram) {
        Ok(response) => Ok(response.payload),
        Err(error) => Err(error),
    }
}

/// Message ids count up by one and start again at zero after the largest:
/// after `count` operations the id is the sum of the first id and `count`,
/// taken modulo 65536. So after 65536 operations the first id comes again,
/// and not before.
pub proof fn lemma_message_ids_count_up(start: u16, count: nat)
    ensures
        message_id_after_many(start, count) == (start + count) % 65536,
    decreases count,
{
    if count > 0 {
        lemma_message_ids_count_up(start, (count - 1) as nat);
    }
}

} // verus!
