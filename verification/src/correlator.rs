//! Pairing a response with the read that asked for it.
//!
//! The channel delivers datagrams in any order, sometimes twice and sometimes
//! never, and says nothing of which request a datagram answers. The token is
//! the only link: the correlator is told the token of the outstanding read and
//! looks at each event the channel produces until one settles the read.
//!
//! One correlator waits for one token at a time.

use crate::codec::{
    decoding_of, is_plain, packet_from_bytes, parsed_as, plain_payload, well_framed, wire_token,
    Response,
};
use crate::errors::{CodecError, Error, TransportError};
use vstd::prelude::*;

verus! {

/// Where a correlator stands.
#[derive(Debug, Clone, Copy, PartialEq, Eq, Structural)]
pub enum CorrelatorState {
    /// No read has been started yet.
    Idle,
    /// A read is outstanding.
    AwaitingMatch,
    /// The outstanding read got its response.
    Matched,
    /// The deadline of the outstanding read passed.
    TimedOut,
    /// The channel failed under the outstanding read.
    ChannelFailed,
}

/// What the channel, or the clock beside it, hands to the correlator.
#[derive(Debug, Clone, PartialEq, Eq)]
pub enum Event {
    /// A datagram that was parsed into a response.
    Response(Response),
    /// A datagram that could not be parsed.
    Malformed(CodecError),
    /// The deadline of the read has passed.
    DeadlineElapsed,
    /// The channel reported a failure.
    ChannelFailed(TransportError),
}

/// What the owner of the channel does next.
#[derive(Debug, Clone, PartialEq, Eq)]
pub enum Step {
    /// No read is outstanding: there is nothing to wait for.
    Idle,
    /// The read is still outstanding: receive the next datagram.
    Wait,
    /// The read is settled: this is the payload of its response.
    Deliver(Vec<u8>),
    /// The read is settled without a response.
    Fail(Error),
}

/// An event that leaves an outstanding read for `token` outstanding: a datagram
/// that could not be parsed, or a response to something else.
pub open spec fn is_noise(token: Seq<u8>, event: Event) -> bool {
    match event {
        Event::Response(response) => response.token@ != token,
        Event::Malformed(_) => true,
        Event::DeadlineElapsed => false,
        Event::ChannelFailed(_) => false,
    }
}

/// The state that follows `state` when `event` arrives while `token` is the
/// token waited for. Only an outstanding read can change state.
pub open spec fn state_after(state: CorrelatorState, token: Seq<u8>, event: Event)
    -> CorrelatorState {
    if state != CorrelatorState::AwaitingMatch || is_noise(token, event) {
        state
    } else {
        match event {
            Event::DeadlineElapsed => CorrelatorState::TimedOut,
            Event::ChannelFailed(_) => CorrelatorState::ChannelFailed,
            _ => CorrelatorState::Matched,
        }
    }
}

/// Whether `step` is the step owed when `event` arrives in `state` while
/// `token` is the token waited for.
pub open spec fn step_answers(
    step: Step,
    state: CorrelatorState,
    token: Seq<u8>,
    event: Event,
) -> bool {
    if state != CorrelatorState::AwaitingMatch {
        step is Idle
    } else {
        match event {
            Event::Response(response) => if response.token@ == token {
                step matches Step::Deliver(payload) && payload@ == response.payload@
            } else {
                step is Wait
            },
            Event::Malformed(_) => step is Wait,
            Event::DeadlineElapsed => step == Step::Fail(Error::Timeout),
            Event::ChannelFailed(failure) => step == Step::Fail(Error::Transport(failure)),
        }
    }
}

/// The payload that `datagram` holds for the read that waits for `token`, if it
/// holds one: the datagram parses, and its token is `token`.
pub open spec fn settling_payload(token: Seq<u8>, datagram: Seq<u8>) -> Option<Seq<u8>> {
    match decoding_of(datagram) {
        Ok(response) => if response.token == token {
            Some(response.payload)
        } else {
            None
        },
        Err(_) => None,
    }
}

/// The state reached from `state` when the events of `events` arrive in order.
pub open spec fn state_after_all(state: CorrelatorState, token: Seq<u8>, events: Seq<Event>)
    -> CorrelatorState
    decreases events.len(),
{
    if events.len() == 0 {
        state
    } else {
        state_after(state_after_all(state, token, events.drop_last()), token, events.last())
    }
}

fn same_bytes(first: &Vec<u8>, second: &Vec<u8>) -> (same: bool)
    ensures
        same == (first@ == second@),
{
    if first.len() != second.len() {
        return false;
    }
    let mut i: usize = 0;
    while i < first.len()
        invariant
            i <= first.len(),
            first.len() == second.len(),
            first@.subrange(0, i as int) == second@.subrange(0, i as int),
        decreases first.len() - i,
    {
        if first[i] != second[i] {
            return false;
        }
        i += 1;
        assert(first@.subrange(0, i as int) =~= first@.subrange(0, i - 1).push(first@[i - 1]));
        assert(second@.subrange(0, i as int) =~= second@.subrange(0, i - 1).push(second@[i - 1]));
    }
    assert(first@ =~= first@.subrange(0, i as int));
    assert(second@ =~= second@.subrange(0, i as int));
    true
}

/// The wait for the response to one read.
pub struct ResponseCorrelator {
    state: CorrelatorState,
    token: Vec<u8>,
    deadline_secs: u64,
}

impl ResponseCorrelator {
    /// Where the correlator stands.
    pub closed spec fn state(&self) -> CorrelatorState {
        self.state
    }

    /// The token of the read that was started last.
    pub closed spec fn token(&self) -> Seq<u8> {
        self.token@
    }

    /// The deadline of the read that was started last: the seconds that it may
    /// wait, counted from its start.
    pub closed spec fn deadline(&self) -> u64 {
        self.deadline_secs
    }

    /// Whether a read is outstanding.
    pub open spec fn is_awaiting(&self) -> bool {
        self.state() == CorrelatorState::AwaitingMatch
    }

    /// A correlator that waits for nothing.
    pub fn new() -> (fresh: ResponseCorrelator)
        ensures
            fresh.state() == CorrelatorState::Idle,
    {
        ResponseCorrelator { state: CorrelatorState::Idle, token: Vec::new(), deadline_secs: 0 }
    }

    /// The seconds that the read started last may wait, counted from its start.
    /// When they have passed, the owner of the clock reports
    /// [`Event::DeadlineElapsed`].
    pub fn deadline_secs(&self) -> (deadline: u64)
        ensures
            deadline == self.deadline(),
    {
        self.deadline_secs
    }

    /// Where the correlator stands.
    pub fn current_state(&self) -> (state: CorrelatorState)
        ensures
            state == self.state(),
    {
        self.state
    }

    /// Starts the wait for the response to the request that was just sent with
    /// `token`; the wait may last `deadline_secs` seconds.
    ///
    /// One read at a time: while a read is outstanding no other may be started,
    /// since the datagrams of the first would be taken for noise by the second.
    pub fn begin(&mut self, token: Vec<u8>, deadline_secs: u64)
        requires
            !old(self).is_awaiting(),
        ensures
            final(self).state() == CorrelatorState::AwaitingMatch,
            final(self).token() == token@,
            final(self).deadline() == deadline_secs,
    {
        self.state = CorrelatorState::AwaitingMatch;
        self.token = token;
        self.deadline_secs = deadline_secs;
    }

    /// Takes one event and says what to do next.
    ///
    /// While a read is outstanding, a response with its token settles it and
    /// hands out the payload; the deadline and a failure of the channel settle
    /// it with an error; everything else is passed over and the read stays
    /// outstanding. When no read is outstanding nothing changes.
    pub fn step(&mut self, event: Event) -> (step: Step)
        ensures
            final(self).state() == state_after(old(self).state(), old(self).token(), event),
            final(self).token() == old(self).token(),
            final(self).deadline() == old(self).deadline(),
            step_answers(step, old(self).state(), old(self).token(), event),
    {
        match self.state {
            CorrelatorState::AwaitingMatch => {},
            _ => {
                return Step::Idle;
            },
        }
        match event {
            Event::Response(response) => {
                if same_bytes(&response.token, &self.token) {
                    self.state = CorrelatorState::Matched;
                    Step::Deliver(response.payload)
                } else {
                    Step::Wait
                }
            },
            Event::Malformed(_) => Step::Wait,
            Event::DeadlineElapsed => {
                self.state = CorrelatorState::TimedOut;
                Step::Fail(Error::Timeout)
            },
            Event::ChannelFailed(failure) => {
                self.state = CorrelatorState::ChannelFailed;
                Step::Fail(Error::Transport(failure))
            },
        }
    }

    /// Takes one received datagram and says what to do next.
    ///
    /// The datagram settles the outstanding read only if it parses and carries
    /// the token waited for; the payload handed out is then what stands at the
    /// end of the datagram. A datagram that is cut short, or that carries
    /// another token, is passed over: it never fails the read. A well-framed
    /// datagram without options that carries the token always settles the read.
    /// When no read is outstanding nothing changes.
    pub fn on_datagram(&mut self, datagram: &[u8]) -> (step: Step)
        ensures
            final(self).token() == old(self).token(),
            final(self).deadline() == old(self).deadline(),
            !old(self).is_awaiting() ==> step is Idle && final(self).state() == old(self).state(),
            old(self).is_awaiting() ==> match settling_payload(old(self).token(), datagram@) {
                Some(settling) => step matches Step::Deliver(payload) && payload@ == settling
                    && final(self).state() == CorrelatorState::Matched,
                None => step is Wait && final(self).state() == CorrelatorState::AwaitingMatch,
            },
            parsed_as(datagram@, decoding_of(datagram@)),
            !well_framed(datagram@) || wire_token(datagram@) != old(self).token() ==> !(step
                is Deliver),
            old(self).is_awaiting() && is_plain(datagram@) && wire_token(datagram@) == old(
                self,
            ).token() ==> (step matches Step::Deliver(payload) && payload@ == plain_payload(
                datagram@,
            )),
    {
        let event = match packet_from_bytes(datagram) {
            Ok(response) => Event::Response(response),
            Err(reason) => Event::Malformed(reason),
        };
        self.step(event)
    }
}

/// Once a correlator is not waiting, no event moves it: a settled read stays
/// settled, and an idle correlator stays idle.
pub proof fn lemma_settled_stays_settled(
    state: CorrelatorState,
    token: Seq<u8>,
    events: Seq<Event>,
)
    requires
        state != CorrelatorState::AwaitingMatch,
    ensures
        state_after_all(state, token, events) == state,
    decreases events.len(),
{
    if events.len() > 0 {
        lemma_settled_stays_settled(state, token, events.drop_last());
    }
}

/// Noise never settles a read: after any number of datagrams that do not parse
/// or that carry another token, the read is still outstanding.
pub proof fn lemma_noise_keeps_waiting(token: Seq<u8>, events: Seq<Event>)
    requires
        forall|i: int| 0 <= i < events.len() ==> is_noise(token, #[trigger] events[i]),
    ensures
        state_after_all(CorrelatorState::AwaitingMatch, token, events)
            == CorrelatorState::AwaitingMatch,
    decreases events.len(),
{
    if events.len() > 0 {
        lemma_noise_keeps_waiting(token, events.drop_last());
    }
}

/// The first event that is not noise settles the read, whatever came before it
/// and whatever comes after it: a response with the token gives `Matched`, the
/// deadline gives `TimedOut`, a failure of the channel gives `ChannelFailed`.
pub proof fn lemma_first_decisive_event_settles(token: Seq<u8>, events: Seq<Event>, first: int)
    requires
        0 <= first < events.len(),
        !is_noise(token, events[first]),
        forall|i: int| 0 <= i < first ==> is_noise(token, #[trigger] events[i]),
    ensures
        state_after_all(CorrelatorState::AwaitingMatch, token, events) == state_after(
            CorrelatorState::AwaitingMatch,
            token,
            events[first],
        ),
        state_after_all(CorrelatorState::AwaitingMatch, token, events)
            != CorrelatorState::AwaitingMatch,
    decreases events.len(),
{
    let before = events.drop_last();
    if first == events.len() - 1 {
        lemma_noise_keeps_waiting(token, before);
    } else {
        lemma_first_decisive_event_settles(token, before, first);
    }
}

} // verus!
