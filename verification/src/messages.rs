//! The message types the engine exchanges with its two participants
//! and with the room's scheduler.
//!
//! The engine itself performs no I/O: each state change returns the
//! [`Effect`]s it wants carried out, in order.  A transport layer
//! serializes the responses and delivers them, and a scheduler turns
//! the internal requests into timers.

use vstd::prelude::*;

use crate::cards::Card;
use crate::combination::CardCombination;
use crate::game::{GameState, PlayerAction};

verus! {

/// The kind of an outbound message.
#[derive(Debug, Clone, Copy, PartialEq, Eq, Structural)]
pub enum ResponseType {
    Env,
    State,
    Community,
    Hand,
    Message,
    Raise,
    Delay,
    BetResult,
    RoundResult,
    GameResult,
}

/// The match constants a fresh room announces to both participants.
#[derive(Debug, Clone, Copy, PartialEq, Eq, Structural)]
pub struct EnvVar {
    pub hp: u32,
    pub bet_time: u64,
    pub result_time: u64,
}

/// The notice both participants get when betting settles: the
/// opponent's settled action and the size of the pot.
#[derive(Debug, Clone, Copy, PartialEq, Eq, Structural)]
pub struct BetResult {
    pub opponent_action: PlayerAction,
    pub total_bet: u32,
}

/// The notice both participants get after a showdown.
#[derive(Debug, Clone, Copy, PartialEq, Eq, Structural)]
pub struct RoundResult {
    pub win: Option<bool>,
    pub fold: bool,
    pub opp_fold: bool,
    pub comb: CardCombination,
    pub opp_comb: CardCombination,
    pub hp: u32,
    pub opp_hp: u32,
}

/// The payload of an outbound message.
#[derive(Debug, Clone, PartialEq, Eq)]
pub enum ResponseValue {
    Env(EnvVar),
    State(GameState, u64),
    BetResult(BetResult),
    RoundResult(RoundResult),
    GameResult(bool),
    Message(String),
    Card(Vec<Card>),
    Raise(u32),
    Number(i32),
}

/// One outbound message: its kind and its payload.
#[derive(Debug, Clone, PartialEq, Eq)]
pub struct ServerResponse {
    pub response_type: ResponseType,
    pub value: ResponseValue,
}

impl ServerResponse {
    pub fn new(response_type: ResponseType, value: ResponseValue) -> (r: ServerResponse)
        ensures
            r == (ServerResponse { response_type, value }),
    {
        ServerResponse { response_type, value }
    }
}

/// An inbound action from a participant, tagged with the epoch it was
/// issued against.
#[derive(Debug, Clone, Copy, PartialEq, Eq, Structural)]
pub struct UserRequest {
    pub state_id: u64,
    pub action: PlayerAction,
    pub value: Option<u32>,
}

impl UserRequest {
    /// A placeholder request; epoch 0 is never issued, so it never
    /// matches a room.
    pub fn dummy() -> (r: UserRequest)
        ensures
            r == (UserRequest { state_id: 0, action: PlayerAction::Idle, value: None }),
    {
        UserRequest { state_id: 0, action: PlayerAction::Idle, value: None }
    }
}

/// The kind of an internal request handed to the room's scheduler.
#[derive(Debug, Clone, Copy, PartialEq, Eq, Structural)]
pub enum IntReqType {
    Idle,
    Message,
    TimeOut,
    GameEnd,
}

/// A deadline request: sleep for `duration` seconds, then advance the
/// room if it still sits in epoch `state_id`.
#[derive(Debug, Clone, Copy, PartialEq, Eq, Structural)]
pub struct TimeOut {
    pub duration: u64,
    pub state_id: u64,
}

/// The payload of an internal request.
#[derive(Debug, Clone, PartialEq, Eq)]
pub enum IntReqValue {
    Empty,
    Message(String),
    TimeOut(TimeOut),
}

/// An internal request: its kind and its payload.
#[derive(Debug, Clone, PartialEq, Eq)]
pub struct InternalRequest {
    pub request_type: IntReqType,
    pub value: IntReqValue,
}

impl InternalRequest {
    /// A placeholder request that asks for nothing.
    pub fn dummy() -> (r: InternalRequest)
        ensures
            r == (InternalRequest { request_type: IntReqType::Idle, value: IntReqValue::Empty }),
    {
        InternalRequest { request_type: IntReqType::Idle, value: IntReqValue::Empty }
    }
}

/// Which of the two participants a message is addressed to.
#[derive(Debug, Clone, Copy, PartialEq, Eq, Structural)]
pub enum Recipient {
    Creator,
    Participant,
}

/// One thing the engine wants done after a state change: a message
/// delivered to one participant, or an internal request handed to the
/// room's scheduler.
#[derive(Debug, Clone, PartialEq, Eq)]
pub enum Effect {
    Send { to: Recipient, response: ServerResponse },
    Schedule { request: InternalRequest },
}

impl Effect {
    /// A message of kind `rt` addressed to `to`.
    pub open spec fn is_send_to(self, to: Recipient, rt: ResponseType) -> bool {
        self matches Effect::Send { to: t, response } && t == to && response.response_type == rt
    }

    /// A deadline request, for whatever epoch.
    pub open spec fn is_timeout(self) -> bool {
        self matches Effect::Schedule { request } && request.request_type is TimeOut
    }

    /// A deadline request of `duration` seconds against epoch `epoch`.
    pub open spec fn is_timeout_for(self, epoch: u64, duration: u64) -> bool {
        &&& self matches Effect::Schedule { request }
        &&& request.request_type is TimeOut
        &&& request.value matches IntReqValue::TimeOut(t)
        &&& t.state_id == epoch
        &&& t.duration == duration
    }
}

/// The deadline effect of `duration` seconds against epoch `epoch`.
pub open spec fn timeout_effect(epoch: u64, duration: u64) -> Effect {
    Effect::Schedule {
        request: InternalRequest {
            request_type: IntReqType::TimeOut,
            value: IntReqValue::TimeOut(TimeOut { duration, state_id: epoch }),
        },
    }
}

/// The message effect that hands `response` to `to`.
pub open spec fn send_effect(to: Recipient, response: ServerResponse) -> Effect {
    Effect::Send { to, response }
}

/// No effect of the sequence is a deadline request.
pub open spec fn no_timeouts(effects: Seq<Effect>) -> bool {
    forall|i: int| 0 <= i < effects.len() ==> !(#[trigger] effects[i]).is_timeout()
}

/// Some effect of the sequence carries a message of kind `rt` to `to`.
pub open spec fn contains_send(effects: Seq<Effect>, to: Recipient, rt: ResponseType) -> bool {
    exists|i: int| 0 <= i < effects.len() && (#[trigger] effects[i]).is_send_to(to, rt)
}

/// Builds the deadline request of `duration` seconds against `epoch`.
pub fn new_timeout_request(epoch: u64, duration: u64) -> (r: InternalRequest)
    ensures
        (Effect::Schedule { request: r }) == timeout_effect(epoch, duration),
{
    InternalRequest {
        request_type: IntReqType::TimeOut,
        value: IntReqValue::TimeOut(TimeOut { duration, state_id: epoch }),
    }
}

} // verus!
