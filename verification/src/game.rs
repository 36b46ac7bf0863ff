//! The per-room state machine: two players, the betting round, the
//! epoch-guarded timeout protocol, and the showdown economy.
//!
//! Every inbound event carries the epoch it was issued against, and a
//! room honours an event only while its epoch is current; anything
//! stale is dropped without touching the room.  State changes return
//! the messages and deadline requests they want delivered instead of
//! performing I/O.

use vstd::prelude::*;

use crate::cards::{all_valid, Card, CardPool, CardType};
use crate::combination::{
    best_combination, combination_ordinal, evaluate, high_rank, CardCombination,
};
use crate::messages::{
    contains_send, new_timeout_request, no_timeouts, send_effect, timeout_effect, BetResult, Effect, EnvVar, IntReqType,
    IntReqValue, InternalRequest, Recipient, ResponseType, ResponseValue, RoundResult,
    ServerResponse, UserRequest,
};

verus! {

/// Seconds a betting round may last before the room advances on its own.
pub const BET_TIME: u64 = 60;

/// Seconds the showdown result stays on screen before the next round.
pub const SHOWDOWN_TIME: u64 = 8;

/// The balance (health points) each player starts the match with.
pub const DEFAULT_HP: u32 = 20;

/// The fixed ante that joins both players' bets in every pot.
pub const INITIAL_BET: u32 = 2;

/// The betting-round states.  `Fold` is a pseudo-state: it is carried
/// by a pending transition to route a settled fold straight into the
/// showdown, and is never stored as a room's state.
#[derive(Debug, Clone, Copy, PartialEq, Eq, Structural)]
pub enum GameState {
    Flop,
    Turn,
    River,
    ShowDown,
    Fold,
}

/// What a player declares during a betting round.
#[derive(Debug, Clone, Copy, PartialEq, Eq, Structural)]
pub enum PlayerAction {
    Idle,
    Message,
    Fold,
    Check,
    Raise,
    Call,
}

/// Who takes the round: the room's creator, the joining participant,
/// or neither.
#[derive(Debug, Clone, Copy, PartialEq, Eq, Structural)]
pub enum RoundOutcome {
    CreatorWins,
    ParticipantWins,
    Draw,
}

/// The successor of an epoch, capped at the largest `u64`.
pub open spec fn next_epoch_after(e: u64) -> u64 {
    if e < u64::MAX {
        (e + 1) as u64
    } else {
        e
    }
}

/// `a + b`, capped at the largest `u32`.
pub open spec fn sat_add_u32(a: u32, b: u32) -> u32 {
    if a + b <= u32::MAX {
        (a + b) as u32
    } else {
        u32::MAX
    }
}

/// `a - b`, floored at zero.
pub open spec fn sat_sub_u32(a: u32, b: u32) -> u32 {
    if a < b {
        0
    } else {
        (a - b) as u32
    }
}

/// A player's mutable round record.
pub struct PlayerStat {
    pub fold: bool,
    pub hp: u32,
    pub bet: u32,
    pub cards: Vec<Card>,
}

impl PlayerStat {
    /// A fresh record: full balance, nothing bet, no cards yet.
    pub fn new() -> (s: PlayerStat)
        ensures
            s.fold == false,
            s.hp == DEFAULT_HP,
            s.bet == 0,
            s.cards@ =~= Seq::<Card>::empty(),
    {
        PlayerStat { fold: false, hp: DEFAULT_HP, bet: 0, cards: Vec::new() }
    }
}

/// One participant: identity, declared action, and round record.
pub struct User {
    pub id: String,
    pub current_action: PlayerAction,
    pub stat: PlayerStat,
}

impl User {
    pub fn new(id: String) -> (u: User)
        ensures
            u.id == id,
            u.current_action is Idle,
            u.stat.fold == false,
            u.stat.hp == DEFAULT_HP,
            u.stat.bet == 0,
            u.stat.cards@ =~= Seq::<Card>::empty(),
    {
        User { id, current_action: PlayerAction::Idle, stat: PlayerStat::new() }
    }

    /// Bets are incremental; the running bet saturates rather than
    /// wrapping around.
    pub fn bet(&mut self, amount: u32)
        ensures
            final(self).stat.bet == sat_add_u32(old(self).stat.bet, amount),
            final(self).id == old(self).id,
            final(self).current_action == old(self).current_action,
            final(self).stat.fold == old(self).stat.fold,
            final(self).stat.hp == old(self).stat.hp,
            final(self).stat.cards == old(self).stat.cards,
    {
        if amount <= u32::MAX - self.stat.bet {
            self.stat.bet = self.stat.bet + amount;
        } else {
            self.stat.bet = u32::MAX;
        }
    }

    /// Folding clears the bet and marks the player out of the round.
    pub fn fold(&mut self)
        ensures
            final(self).stat.bet == 0,
            final(self).stat.fold == true,
            final(self).id == old(self).id,
            final(self).current_action == old(self).current_action,
            final(self).stat.hp == old(self).stat.hp,
            final(self).stat.cards == old(self).stat.cards,
    {
        self.stat.bet = 0;
        self.stat.fold = true;
    }

    /// Damage reduces the balance, floored at zero.
    pub fn apply_damage(&mut self, damage: u32)
        ensures
            final(self).stat.hp == sat_sub_u32(old(self).stat.hp, damage),
            final(self).id == old(self).id,
            final(self).current_action == old(self).current_action,
            final(self).stat.fold == old(self).stat.fold,
            final(self).stat.bet == old(self).stat.bet,
            final(self).stat.cards == old(self).stat.cards,
    {
        if self.stat.hp < damage {
            self.stat.hp = 0;
        } else {
            self.stat.hp = self.stat.hp - damage;
        }
    }
}

/// An optional carrier saying "betting settled; advance from this
/// state when convenient".  Produced by action processing and consumed
/// by `pending_next_state`.
pub struct Pending(pub Option<GameState>);

/// The room state machine.
///
/// `state_id` is the current epoch: an opaque token identifying one
/// instance of the round state, drawn from a counter that never hands
/// out the same value twice.  Every transition issues a fresh epoch,
/// and an event carrying any other token is stale and ignored.
pub struct Game {
    pub state: GameState,
    pub state_id: Option<u64>,
    pub state_extend: bool,
    pub next_epoch: u64,
    pub game_over: bool,
    pub creator: User,
    pub participant: Option<User>,
    pub community: Vec<Card>,
    pub card_pool: CardPool,
}

impl Game {
    /// Both seats are taken.
    pub open spec fn complete(self) -> bool {
        self.participant is Some
    }

    /// Cards are dealt consistently with the round state: the pool and
    /// the table always account for the same fresh deck.
    pub open spec fn dealt(self) -> bool {
        &&& self.card_pool.wf()
        &&& all_valid(self.community@)
        &&& self.creator.stat.cards@.len() == 2
        &&& all_valid(self.creator.stat.cards@)
        &&& (self.participant matches Some(p) && p.stat.cards@.len() == 2 && all_valid(
            p.stat.cards@,
        ))
        &&& match self.state {
            GameState::Flop => self.community@.len() == 3 && self.card_pool.cards@.len() == 45,
            GameState::Turn => self.community@.len() == 4 && self.card_pool.cards@.len() == 44,
            GameState::River => self.community@.len() == 5 && self.card_pool.cards@.len() == 43,
            GameState::ShowDown => 3 <= self.community@.len() <= 5 && self.card_pool.cards@.len()
                + self.community@.len() == 48,
            GameState::Fold => false,
        }
    }

    /// The room's invariant.  A room whose epoch is issued is complete
    /// and dealt, and while the match is not over both balances are
    /// positive.
    pub open spec fn wf(self) -> bool {
        &&& !(self.state is Fold)
        &&& self.card_pool.wf()
        &&& all_valid(self.community@)
        &&& (self.state_id is Some ==> self.complete() && self.dealt())
        &&& (!self.game_over ==> self.creator.stat.hp > 0 && (self.participant matches Some(p)
            ==> p.stat.hp > 0))
    }

    /// The room honours an event carrying `epoch` only while that
    /// epoch is current and the match still runs.
    pub open spec fn accepts_epoch(self, epoch: u64) -> bool {
        !self.game_over && self.state_id == Some(epoch)
    }

    /// A pending transition applies only while the match runs, an
    /// epoch is issued, and the carried state is the room's state or
    /// the fold pseudo-state.  `receive_player_action` returns only
    /// such transitions.
    pub open spec fn pending_ready(self, pending: Pending) -> bool {
        &&& !self.game_over
        &&& self.state_id is Some
        &&& pending.0 matches Some(st) && (st == self.state || st is Fold)
    }

    /// The seven (or fewer) cards the creator plays at showdown.
    pub open spec fn creator_cards(self) -> Seq<Card> {
        self.community@ + self.creator.stat.cards@
    }

    /// The seven (or fewer) cards the participant plays at showdown.
    pub open spec fn participant_cards(self) -> Seq<Card> {
        self.community@ + self.participant.unwrap().stat.cards@
    }

    /// The pot: both players' bets plus the fixed ante.
    pub open spec fn pot(self) -> u32 {
        sat_add_u32(sat_add_u32(self.participant.unwrap().stat.bet, self.creator.stat.bet),
            INITIAL_BET)
    }

    /// Who takes the round: a player who folded loses outright;
    /// otherwise the better combination category wins, and two high
    /// cards are split by the higher card.  Equal hands of any other
    /// category are a draw.
    pub open spec fn round_outcome(self) -> RoundOutcome {
        if self.creator.stat.fold {
            RoundOutcome::ParticipantWins
        } else if self.participant.unwrap().stat.fold {
            RoundOutcome::CreatorWins
        } else {
            let cc = best_combination(self.creator_cards());
            let pc = best_combination(self.participant_cards());
            if combination_ordinal(cc) > combination_ordinal(pc) {
                RoundOutcome::CreatorWins
            } else if combination_ordinal(cc) < combination_ordinal(pc) {
                RoundOutcome::ParticipantWins
            } else if cc is HighCard && pc is HighCard {
                let cr = high_rank(self.creator_cards());
                let pr = high_rank(self.participant_cards());
                if cr > pr {
                    RoundOutcome::CreatorWins
                } else if cr < pr {
                    RoundOutcome::ParticipantWins
                } else {
                    RoundOutcome::Draw
                }
            } else {
                RoundOutcome::Draw
            }
        }
    }

    /// A new room: the creator waits, nothing is dealt, no epoch is
    /// issued yet.
    pub fn new(cid: String) -> (g: Game)
        ensures
            g.wf(),
            g.state is Flop,
            g.state_id is None,
            g.state_extend == false,
            g.next_epoch == 1,
            g.game_over == false,
            g.creator.id == cid,
            g.creator.current_action is Idle,
            g.creator.stat.hp == DEFAULT_HP,
            g.creator.stat.bet == 0,
            g.creator.stat.fold == false,
            g.participant is None,
            g.community@ =~= Seq::<Card>::empty(),
            g.card_pool.cards@.len() == 52,
    {
        Game {
            state: GameState::Flop,
            state_id: None,
            state_extend: false,
            next_epoch: 1,
            game_over: false,
            creator: User::new(cid),
            participant: None,
            community: Vec::new(),
            card_pool: CardPool::new(),
        }
    }

    /// Issues a fresh epoch, broadcasts the room's state under it, and
    /// schedules the betting deadline against it.  A fresh epoch also
    /// makes the round's one deadline extension available again.
    pub fn set_state_id_and_send(&mut self) -> (effects: Vec<Effect>)
        requires
            old(self).wf(),
            old(self).complete(),
            old(self).dealt(),
        ensures
            final(self).wf(),
            final(self).state == old(self).state,
            final(self).state_id == Some(old(self).next_epoch),
            final(self).state_extend == false,
            final(self).next_epoch == next_epoch_after(old(self).next_epoch),
            final(self).game_over == old(self).game_over,
            final(self).creator == old(self).creator,
            final(self).participant == old(self).participant,
            final(self).community == old(self).community,
            final(self).card_pool == old(self).card_pool,
            effects@ =~= seq![
                send_effect(
                    Recipient::Creator,
                    state_response(old(self).state, old(self).next_epoch),
                ),
                send_effect(
                    Recipient::Participant,
                    state_response(old(self).state, old(self).next_epoch),
                ),
                timeout_effect(old(self).next_epoch, BET_TIME),
            ],
    {
        let epoch = self.next_epoch;
        self.state_id = Some(epoch);
        if self.next_epoch < u64::MAX {
            self.next_epoch = self.next_epoch + 1;
        }
        self.state_extend = false;
        let mut effects: Vec<Effect> = Vec::new();
        effects.push(Effect::Send {
            to: Recipient::Creator,
            response: ServerResponse {
                response_type: ResponseType::State,
                value: ResponseValue::State(self.state, epoch),
            },
        });
        effects.push(Effect::Send {
            to: Recipient::Participant,
            response: ServerResponse {
                response_type: ResponseType::State,
                value: ResponseValue::State(self.state, epoch),
            },
        });
        effects.push(Effect::Schedule { request: new_timeout_request(epoch, BET_TIME) });
        effects
    }

    /// Announces the match constants to both players.
    fn send_env_variables(&self) -> (effects: Vec<Effect>)
        requires
            self.complete(),
        ensures
            effects@ =~= seq![
                send_effect(Recipient::Creator, env_response()),
                send_effect(Recipient::Participant, env_response()),
            ],
    {
        let mut effects: Vec<Effect> = Vec::new();
        effects.push(Effect::Send {
            to: Recipient::Creator,
            response: ServerResponse {
                response_type: ResponseType::Env,
                value: ResponseValue::Env(
                    EnvVar { hp: DEFAULT_HP, bet_time: BET_TIME, result_time: SHOWDOWN_TIME },
                ),
            },
        });
        effects.push(Effect::Send {
            to: Recipient::Participant,
            response: ServerResponse {
                response_type: ResponseType::Env,
                value: ResponseValue::Env(
                    EnvVar { hp: DEFAULT_HP, bet_time: BET_TIME, result_time: SHOWDOWN_TIME },
                ),
            },
        });
        effects
    }

    /// Resets the pool to a fresh deck, deals three community cards and
    /// two hole cards to each player, and reports them.
    fn init_cards_and_send(&mut self) -> (effects: Vec<Effect>)
        requires
            old(self).complete(),
            old(self).state is Flop,
        ensures
            final(self).complete(),
            final(self).dealt(),
            final(self).community@.len() == 3,
            final(self).state == old(self).state,
            final(self).state_id == old(self).state_id,
            final(self).state_extend == old(self).state_extend,
            final(self).next_epoch == old(self).next_epoch,
            final(self).game_over == old(self).game_over,
            final(self).creator.id == old(self).creator.id,
            final(self).creator.current_action == old(self).creator.current_action,
            final(self).creator.stat.fold == old(self).creator.stat.fold,
            final(self).creator.stat.hp == old(self).creator.stat.hp,
            final(self).creator.stat.bet == old(self).creator.stat.bet,
            final(self).participant.unwrap().id == old(self).participant.unwrap().id,
            final(self).participant.unwrap().current_action == old(self).participant.unwrap().current_action,
            final(self).participant.unwrap().stat.fold == old(self).participant.unwrap().stat.fold,
            final(self).participant.unwrap().stat.hp == old(self).participant.unwrap().stat.hp,
            final(self).participant.unwrap().stat.bet == old(self).participant.unwrap().stat.bet,
            effects@.len() == 4,
            sends_cards(
                effects@[0],
                Recipient::Creator,
                ResponseType::Community,
                final(self).community@,
            ),
            sends_cards(
                effects@[1],
                Recipient::Participant,
                ResponseType::Community,
                final(self).community@,
            ),
            sends_cards(
                effects@[2],
                Recipient::Creator,
                ResponseType::Hand,
                final(self).creator.stat.cards@,
            ),
            sends_cards(
                effects@[3],
                Recipient::Participant,
                ResponseType::Hand,
                final(self).participant.unwrap().stat.cards@,
            ),
    {
        self.card_pool = CardPool::new();
        let community = match self.card_pool.poll_cards(3) {
            Some(c) => c,
            None => {
                proof {
                    assert(false);
                }
                Vec::new()
            },
        };
        self.community = community;
        let hand_c = match self.card_pool.poll_cards(2) {
            Some(c) => c,
            None => {
                proof {
                    assert(false);
                }
                Vec::new()
            },
        };
        self.creator.stat.cards = hand_c;
        let hand_p = match self.card_pool.poll_cards(2) {
            Some(c) => c,
            None => {
                proof {
                    assert(false);
                }
                Vec::new()
            },
        };
        let mut p = self.participant.take().unwrap();
        p.stat.cards = hand_p;
        let part_hand_msg = copy_cards(&p.stat.cards);
        self.participant = Some(p);

        let mut effects: Vec<Effect> = Vec::new();
        effects.push(Effect::Send {
            to: Recipient::Creator,
            response: ServerResponse {
                response_type: ResponseType::Community,
                value: ResponseValue::Card(copy_cards(&self.community)),
            },
        });
        effects.push(Effect::Send {
            to: Recipient::Participant,
            response: ServerResponse {
                response_type: ResponseType::Community,
                value: ResponseValue::Card(copy_cards(&self.community)),
            },
        });
        effects.push(Effect::Send {
            to: Recipient::Creator,
            response: ServerResponse {
                response_type: ResponseType::Hand,
                value: ResponseValue::Card(copy_cards(&self.creator.stat.cards)),
            },
        });
        effects.push(Effect::Send {
            to: Recipient::Participant,
            response: ServerResponse {
                response_type: ResponseType::Hand,
                value: ResponseValue::Card(part_hand_msg),
            },
        });
        effects
    }

    /// Initializes a round for a complete room: announces the match
    /// constants, clears bets, folds and declared actions, resets the
    /// deck and deals, issues a fresh epoch, and schedules the betting
    /// deadline.  A waiting or finished room is left alone.
    pub fn init_game(&mut self) -> (effects: Vec<Effect>)
        requires
            old(self).wf(),
        ensures
            final(self).wf(),
            !old(self).complete() || old(self).game_over ==> *final(self) == *old(self)
                && effects@ =~= Seq::<Effect>::empty(),
            old(self).complete() && !old(self).game_over ==> ({
                &&& final(self).state is Flop
                &&& final(self).complete()
                &&& final(self).dealt()
                &&& final(self).state_id == Some(old(self).next_epoch)
                &&& final(self).next_epoch == next_epoch_after(old(self).next_epoch)
                &&& final(self).state_extend == false
                &&& final(self).game_over == false
                &&& final(self).creator.id == old(self).creator.id
                &&& final(self).creator.current_action is Idle
                &&& final(self).creator.stat.hp == old(self).creator.stat.hp
                &&& final(self).creator.stat.bet == 0
                &&& final(self).creator.stat.fold == false
                &&& final(self).participant.unwrap().id == old(self).participant.unwrap().id
                &&& final(self).participant.unwrap().current_action is Idle
                &&& final(self).participant.unwrap().stat.hp == old(self).participant.unwrap().stat.hp
                &&& final(self).participant.unwrap().stat.bet == 0
                &&& final(self).participant.unwrap().stat.fold == false
                &&& final(self).community@.len() == 3
                &&& effects@.len() == 9
                &&& effects@[0] == send_effect(Recipient::Creator, env_response())
                &&& effects@[1] == send_effect(Recipient::Participant, env_response())
                &&& sends_cards(
                    effects@[2],
                    Recipient::Creator,
                    ResponseType::Community,
                    final(self).community@,
                )
                &&& sends_cards(
                    effects@[3],
                    Recipient::Participant,
                    ResponseType::Community,
                    final(self).community@,
                )
                &&& sends_cards(
                    effects@[4],
                    Recipient::Creator,
                    ResponseType::Hand,
                    final(self).creator.stat.cards@,
                )
                &&& sends_cards(
                    effects@[5],
                    Recipient::Participant,
                    ResponseType::Hand,
                    final(self).participant.unwrap().stat.cards@,
                )
                &&& effects@[6] == send_effect(
                    Recipient::Creator,
                    state_response(GameState::Flop, old(self).next_epoch),
                )
                &&& effects@[7] == send_effect(
                    Recipient::Participant,
                    state_response(GameState::Flop, old(self).next_epoch),
                )
                &&& effects@[8] == timeout_effect(old(self).next_epoch, BET_TIME)
            }),
    {
        let incomplete = match &self.participant {
            Some(_) => false,
            None => true,
        };
        if incomplete || self.game_over {
            return Vec::new();
        }
        self.state = GameState::Flop;
        self.clear_user_bet();
        self.clear_user_action();
        let mut effects = self.send_env_variables();
        let mut cards_fx = self.init_cards_and_send();
        effects.append(&mut cards_fx);
        let mut state_fx = self.set_state_id_and_send();
        effects.append(&mut state_fx);
        effects
    }

    /// Installs the second player and starts the match.  A room that
    /// already has a participant rejects the join and stays as it is.
    pub fn join_game(&mut self, id: String) -> (effects: Vec<Effect>)
        requires
            old(self).wf(),
        ensures
            final(self).wf(),
            old(self).complete() ==> *final(self) == *old(self) && effects@ =~= Seq::<
                Effect,
            >::empty(),
            !old(self).complete() ==> ({
                &&& final(self).complete()
                &&& final(self).participant.unwrap().id == id
                &&& final(self).participant.unwrap().current_action is Idle
                &&& final(self).participant.unwrap().stat.hp == DEFAULT_HP
                &&& final(self).participant.unwrap().stat.bet == 0
                &&& final(self).participant.unwrap().stat.fold == false
                &&& final(self).creator.id == old(self).creator.id
                &&& final(self).creator.stat.hp == old(self).creator.stat.hp
                &&& final(self).game_over == old(self).game_over
                &&& (!old(self).game_over ==> final(self).creator.current_action is Idle
                    && final(self).creator.stat.bet == 0 && final(self).creator.stat.fold
                    == false)
                &&& (!old(self).game_over ==> final(self).state is Flop && final(self).state_id
                    == Some(old(self).next_epoch) && final(self).state_extend == false && final(self).dealt() && final(self).next_epoch == next_epoch_after(old(self).next_epoch))
            }),
    {
        let complete = match &self.participant {
            Some(_) => true,
            None => false,
        };
        if complete {
            return Vec::new();
        }
        self.participant = Some(User::new(id));
        self.init_game()
    }

    /// Applies one inbound player action.  A request whose epoch is
    /// not current, or that reaches a finished room, is dropped without
    /// any change.  A `Message` relays a ping to the opponent.  A
    /// `Fold` settles the round at once against the folder.  `Check`,
    /// `Raise` and `Call` record the declared action (a `Call` counts
    /// as a `Raise` for settlement), and a `Raise` notifies the
    /// opponent and extends the betting deadline at most once per
    /// epoch.  Betting settles when both declared actions agree or
    /// either player has folded; settlement hands back the state to
    /// advance from and reports the opponent's action and the pot to
    /// both players.
    pub fn receive_player_action(&mut self, uid: &String, req: UserRequest) -> (r: (
        Pending,
        Vec<Effect>,
    ))
        requires
            old(self).wf(),
        ensures
            final(self).wf(),
            !old(self).accepts_epoch(req.state_id) ==> *final(self) == *old(self) && r.0.0 is None
                && r.1@ =~= Seq::<Effect>::empty(),
            old(self).accepts_epoch(req.state_id) ==> ({
                let pre = *old(self);
                let post = *final(self);
                let actor_is = pre.creator.id@ == uid@;
                let pre_actor = if actor_is { pre.creator } else { pre.participant.unwrap() };
                let pre_opp = if actor_is { pre.participant.unwrap() } else { pre.creator };
                let post_actor = if actor_is { post.creator } else { post.participant.unwrap() };
                let post_opp = if actor_is { post.participant.unwrap() } else { post.creator };
                let actor_rec = if actor_is { Recipient::Creator } else { Recipient::Participant };
                let opp_rec = if actor_is { Recipient::Participant } else { Recipient::Creator };
                &&& post.state == pre.state
                &&& post.state_id == pre.state_id
                &&& post.next_epoch == pre.next_epoch
                &&& post.game_over == pre.game_over
                &&& post.community == pre.community
                &&& post.card_pool == pre.card_pool
                &&& post.complete()
                &&& post_actor.id == pre_actor.id
                &&& post_opp.id == pre_opp.id
                &&& post_actor.stat.hp == pre_actor.stat.hp
                &&& post_opp.stat.hp == pre_opp.stat.hp
                &&& post_actor.stat.cards == pre_actor.stat.cards
                &&& post_opp.stat.cards == pre_opp.stat.cards
                &&& post.state_extend == (pre.state_extend || (req.action is Raise && req.value
                    is Some))
                &&& (pre.state_extend ==> no_timeouts(r.1@))
                &&& (req.action is Message ==> post == pre && r.0.0 is None && r.1@.len() == 1
                    && sends_text(r.1@[0], opp_rec, "Ping from opponent"@))
                &&& (req.action is Fold ==> ({
                    &&& post_actor.current_action is Fold
                    &&& post_actor.stat.bet == 0
                    &&& post_actor.stat.fold == true
                    &&& post_opp.current_action is Check
                    &&& post_opp.stat.bet == pre_opp.stat.bet
                    &&& post_opp.stat.fold == pre_opp.stat.fold
                    &&& r.0.0 == Some(GameState::Fold)
                    &&& r.1@ =~= seq![
                        send_effect(
                            Recipient::Creator,
                            bet_result_response(
                                post.participant.unwrap().current_action,
                                post.pot(),
                            ),
                        ),
                        send_effect(
                            Recipient::Participant,
                            bet_result_response(post.creator.current_action, post.pot()),
                        ),
                    ]
                }))
                &&& (!(req.action is Message) && !(req.action is Fold) ==> ({
                    let a = effective_action(req.action);
                    let o = pre_opp.current_action;
                    let base = if req.value is Some {
                        sat_add_u32(pre_actor.stat.bet, req.value.unwrap())
                    } else {
                        pre_actor.stat.bet
                    };
                    let raising = req.action is Raise && req.value is Some;
                    let extending = raising && !pre.state_extend;
                    let settled = a == o || o is Fold;
                    let nraise: int = if extending {
                        3int
                    } else if raising {
                        1int
                    } else {
                        0int
                    };
                    &&& post_actor.current_action == a
                    &&& post_opp.current_action == o
                    &&& post_opp.stat.bet == pre_opp.stat.bet
                    &&& post_opp.stat.fold == pre_opp.stat.fold
                    &&& post_actor.stat.fold == pre_actor.stat.fold
                    &&& post_actor.stat.bet == (if o is Fold && a is Raise {
                        sat_sub_u32(base, 1)
                    } else {
                        base
                    })
                    &&& r.0.0 == (if a == o {
                        Some(pre.state)
                    } else if o is Fold {
                        Some(GameState::Fold)
                    } else {
                        None::<GameState>
                    })
                    &&& r.1@.len() == nraise + (if settled {
                        2int
                    } else {
                        0int
                    })
                    &&& (raising ==> r.1@[0] == send_effect(
                        opp_rec,
                        raise_response(req.value.unwrap()),
                    ))
                    &&& (extending ==> r.1@[1] == send_effect(actor_rec, delay_response())
                        && r.1@[2] == timeout_effect(req.state_id, BET_TIME))
                    &&& (settled ==> r.1@[nraise] == send_effect(
                        Recipient::Creator,
                        bet_result_response(post.participant.unwrap().current_action, post.pot()),
                    ) && r.1@[nraise + 1] == send_effect(
                        Recipient::Participant,
                        bet_result_response(post.creator.current_action, post.pot()),
                    ))
                }))
            }),
    {
        let mut effects: Vec<Effect> = Vec::new();
        let accepted = !self.game_over && (match &self.state_id {
            Some(e) => *e == req.state_id,
            None => false,
        });
        if !accepted {
            return (Pending(None), effects);
        }
        let actor_is_creator = self.creator.id == *uid;
        let actor_rec = if actor_is_creator {
            Recipient::Creator
        } else {
            Recipient::Participant
        };
        let opp_rec = if actor_is_creator {
            Recipient::Participant
        } else {
            Recipient::Creator
        };

        // work on the two seats symmetrically
        let mut creator_local = User::new(String::new());
        core::mem::swap(&mut creator_local, &mut self.creator);
        let part_local = self.participant.take().unwrap();
        let (mut actor, mut opp) = if actor_is_creator {
            (creator_local, part_local)
        } else {
            (part_local, creator_local)
        };

        let mut pending = Pending(None);

        match req.action {
            PlayerAction::Fold => {
                actor.fold();
                opp.current_action = PlayerAction::Check;
            },
            PlayerAction::Message => {
                effects.push(Effect::Send {
                    to: opp_rec,
                    response: ServerResponse {
                        response_type: ResponseType::Message,
                        value: ResponseValue::Message("Ping from opponent".to_owned()),
                    },
                });
            },
            _ => {
                match req.value {
                    Some(amount) => {
                        actor.bet(amount);
                        if req.action == PlayerAction::Raise {
                            effects.push(Effect::Send {
                                to: opp_rec,
                                response: ServerResponse {
                                    response_type: ResponseType::Raise,
                                    value: ResponseValue::Raise(amount),
                                },
                            });
                            // the deadline is extended at most once per epoch
                            if !self.state_extend {
                                effects.push(Effect::Send {
                                    to: actor_rec,
                                    response: ServerResponse {
                                        response_type: ResponseType::Delay,
                                        value: ResponseValue::Number(BET_TIME as i32),
                                    },
                                });
                                self.state_extend = true;
                                effects.push(Effect::Schedule {
                                    request: new_timeout_request(req.state_id, BET_TIME),
                                });
                            }
                        }
                    },
                    None => {},
                }
            },
        }

        if req.action != PlayerAction::Message {
            actor.current_action = if req.action == PlayerAction::Call {
                PlayerAction::Raise
            } else {
                req.action
            };

            let mut bet_end = false;
            if actor.current_action == opp.current_action {
                bet_end = true;
                pending = Pending(Some(self.state));
            } else if actor.current_action == PlayerAction::Fold {
                bet_end = true;
                // raising and then folding forfeits one unit of the raise
                if opp.current_action == PlayerAction::Raise {
                    if opp.stat.bet >= 1 {
                        opp.stat.bet = opp.stat.bet - 1;
                    } else {
                        opp.stat.bet = 0;
                    }
                }
                pending = Pending(Some(GameState::Fold));
            } else if opp.current_action == PlayerAction::Fold {
                bet_end = true;
                if actor.current_action == PlayerAction::Raise {
                    if actor.stat.bet >= 1 {
                        actor.stat.bet = actor.stat.bet - 1;
                    } else {
                        actor.stat.bet = 0;
                    }
                }
                pending = Pending(Some(GameState::Fold));
            }

            if bet_end {
                let t1 = if opp.stat.bet <= u32::MAX - actor.stat.bet {
                    actor.stat.bet + opp.stat.bet
                } else {
                    u32::MAX
                };
                let total = if INITIAL_BET <= u32::MAX - t1 {
                    t1 + INITIAL_BET
                } else {
                    u32::MAX
                };
                let creator_sees = if actor_is_creator {
                    opp.current_action
                } else {
                    actor.current_action
                };
                let participant_sees = if actor_is_creator {
                    actor.current_action
                } else {
                    opp.current_action
                };
                effects.push(Effect::Send {
                    to: Recipient::Creator,
                    response: ServerResponse {
                        response_type: ResponseType::BetResult,
                        value: ResponseValue::BetResult(
                            BetResult { opponent_action: creator_sees, total_bet: total },
                        ),
                    },
                });
                effects.push(Effect::Send {
                    to: Recipient::Participant,
                    response: ServerResponse {
                        response_type: ResponseType::BetResult,
                        value: ResponseValue::BetResult(
                            BetResult { opponent_action: participant_sees, total_bet: total },
                        ),
                    },
                });
            }
        }

        if actor_is_creator {
            self.creator = actor;
            self.participant = Some(opp);
        } else {
            self.creator = opp;
            self.participant = Some(actor);
        }
        (pending, effects)
    }

    /// Relays a free-text notice to both players; a waiting room sends
    /// nothing.
    pub fn broadcast_message(&self, msg: &str) -> (effects: Vec<Effect>)
        ensures
            !self.complete() ==> effects@ =~= Seq::<Effect>::empty(),
            self.complete() ==> effects@.len() == 2 && sends_text(
                effects@[0],
                Recipient::Participant,
                msg@,
            ) && sends_text(effects@[1], Recipient::Creator, msg@),
    {
        match &self.participant {
            None => Vec::new(),
            Some(_) => {
                let mut effects: Vec<Effect> = Vec::new();
                effects.push(Effect::Send {
                    to: Recipient::Participant,
                    response: ServerResponse {
                        response_type: ResponseType::Message,
                        value: ResponseValue::Message(msg.to_owned()),
                    },
                });
                effects.push(Effect::Send {
                    to: Recipient::Creator,
                    response: ServerResponse {
                        response_type: ResponseType::Message,
                        value: ResponseValue::Message(msg.to_owned()),
                    },
                });
                effects
            },
        }
    }

    /// A player who never declared anything is checked off when the
    /// betting deadline forces the round forward.
    fn no_response_check(&mut self)
        requires
            old(self).complete(),
        ensures
            final(self).complete(),
            final(self).creator.current_action == (if old(self).creator.current_action is Idle {
                PlayerAction::Check
            } else {
                old(self).creator.current_action
            }),
            final(self).participant.unwrap().current_action == (if old(self).participant.unwrap().current_action is Idle {
                PlayerAction::Check
            } else {
                old(self).participant.unwrap().current_action
            }),
            final(self).creator.id == old(self).creator.id,
            final(self).creator.stat == old(self).creator.stat,
            final(self).participant.unwrap().id == old(self).participant.unwrap().id,
            final(self).participant.unwrap().stat == old(self).participant.unwrap().stat,
            final(self).state == old(self).state,
            final(self).state_id == old(self).state_id,
            final(self).state_extend == old(self).state_extend,
            final(self).next_epoch == old(self).next_epoch,
            final(self).game_over == old(self).game_over,
            final(self).community == old(self).community,
            final(self).card_pool == old(self).card_pool,
    {
        if self.creator.current_action == PlayerAction::Idle {
            self.creator.current_action = PlayerAction::Check;
        }
        let mut p = self.participant.take().unwrap();
        if p.current_action == PlayerAction::Idle {
            p.current_action = PlayerAction::Check;
        }
        self.participant = Some(p);
    }

    /// Clears both players' declared actions for the next round state.
    fn clear_user_action(&mut self)
        requires
            old(self).complete(),
        ensures
            final(self).complete(),
            final(self).creator.current_action is Idle,
            final(self).participant.unwrap().current_action is Idle,
            final(self).creator.id == old(self).creator.id,
            final(self).creator.stat == old(self).creator.stat,
            final(self).participant.unwrap().id == old(self).participant.unwrap().id,
            final(self).participant.unwrap().stat == old(self).participant.unwrap().stat,
            final(self).state == old(self).state,
            final(self).state_id == old(self).state_id,
            final(self).state_extend == old(self).state_extend,
            final(self).next_epoch == old(self).next_epoch,
            final(self).game_over == old(self).game_over,
            final(self).community == old(self).community,
            final(self).card_pool == old(self).card_pool,
    {
        self.creator.current_action = PlayerAction::Idle;
        let mut p = self.participant.take().unwrap();
        p.current_action = PlayerAction::Idle;
        self.participant = Some(p);
    }

    /// Clears both players' bets and fold marks for a fresh round.
    fn clear_user_bet(&mut self)
        requires
            old(self).complete(),
        ensures
            final(self).complete(),
            final(self).creator.stat.bet == 0,
            final(self).creator.stat.fold == false,
            final(self).participant.unwrap().stat.bet == 0,
            final(self).participant.unwrap().stat.fold == false,
            final(self).creator.id == old(self).creator.id,
            final(self).creator.current_action == old(self).creator.current_action,
            final(self).creator.stat.hp == old(self).creator.stat.hp,
            final(self).creator.stat.cards == old(self).creator.stat.cards,
            final(self).participant.unwrap().id == old(self).participant.unwrap().id,
            final(self).participant.unwrap().current_action == old(self).participant.unwrap().current_action,
            final(self).participant.unwrap().stat.hp == old(self).participant.unwrap().stat.hp,
            final(self).participant.unwrap().stat.cards == old(self).participant.unwrap().stat.cards,
            final(self).state == old(self).state,
            final(self).state_id == old(self).state_id,
            final(self).state_extend == old(self).state_extend,
            final(self).next_epoch == old(self).next_epoch,
            final(self).game_over == old(self).game_over,
            final(self).community == old(self).community,
            final(self).card_pool == old(self).card_pool,
    {
        self.creator.stat.bet = 0;
        self.creator.stat.fold = false;
        let mut p = self.participant.take().unwrap();
        p.stat.bet = 0;
        p.stat.fold = false;
        self.participant = Some(p);
    }

    /// Draws one more community card from the pool.
    fn add_community(&mut self) -> (c: Card)
        requires
            old(self).card_pool.wf(),
            old(self).card_pool.cards@.len() >= 1,
            all_valid(old(self).community@),
        ensures
            final(self).card_pool.wf(),
            final(self).card_pool.cards@.len() + 1 == old(self).card_pool.cards@.len(),
            c.valid(),
            final(self).community@ == old(self).community@.push(c),
            all_valid(final(self).community@),
            final(self).state == old(self).state,
            final(self).state_id == old(self).state_id,
            final(self).state_extend == old(self).state_extend,
            final(self).next_epoch == old(self).next_epoch,
            final(self).game_over == old(self).game_over,
            final(self).creator == old(self).creator,
            final(self).participant == old(self).participant,
    {
        match self.card_pool.poll_card() {
            Some(card) => {
                self.community.push(card);
                proof {
                    let s = old(self).community@;
                    assert forall|i: int| 0 <= i < s.push(card).len() implies (#[trigger] s.push(
                        card,
                    )[i]).valid() by {
                        if i < s.len() {
                            assert(s.push(card)[i] == s[i]);
                        } else {
                            assert(s.push(card)[i] == card);
                        }
                    }
                }
                card
            },
            None => {
                proof {
                    assert(false);
                }
                Card::new(CardType::Diamond, 1)
            },
        }
    }

    /// The pot: both players' bets plus the fixed ante, saturating.
    fn get_total_bet(&self) -> (r: u32)
        requires
            self.complete(),
        ensures
            r == self.pot(),
    {
        let pb = match &self.participant {
            Some(p) => p.stat.bet,
            None => 0,
        };
        let t1 = if self.creator.stat.bet <= u32::MAX - pb {
            pb + self.creator.stat.bet
        } else {
            u32::MAX
        };
        if INITIAL_BET <= u32::MAX - t1 {
            t1 + INITIAL_BET
        } else {
            u32::MAX
        }
    }

    /// Retires the room: no further event is honoured.  The epoch is
    /// also rotated so that every outstanding deadline goes stale.
    fn end_game(&mut self) -> (effects: Vec<Effect>)
        ensures
            final(self).game_over == true,
            final(self).state_id == Some(old(self).next_epoch),
            final(self).next_epoch == next_epoch_after(old(self).next_epoch),
            final(self).state == old(self).state,
            final(self).state_extend == old(self).state_extend,
            final(self).community == old(self).community,
            final(self).card_pool == old(self).card_pool,
            final(self).creator == old(self).creator,
            final(self).participant == old(self).participant,
            effects@ =~= seq![game_end_effect()],
    {
        self.game_over = true;
        self.state_id = Some(self.next_epoch);
        if self.next_epoch < u64::MAX {
            self.next_epoch = self.next_epoch + 1;
        }
        let mut effects: Vec<Effect> = Vec::new();
        effects.push(Effect::Schedule {
            request: InternalRequest {
                request_type: IntReqType::GameEnd,
                value: IntReqValue::Empty,
            },
        });
        effects
    }

    /// When either balance has reached zero, reports the match result
    /// to both players — the player whose opponent is at zero wins —
    /// and retires the room.  Otherwise nothing happens.
    fn send_game_result(&mut self) -> (effects: Vec<Effect>)
        requires
            old(self).complete(),
        ensures
            final(self).complete(),
            final(self).creator == old(self).creator,
            final(self).participant == old(self).participant,
            final(self).state == old(self).state,
            final(self).state_extend == old(self).state_extend,
            final(self).community == old(self).community,
            final(self).card_pool == old(self).card_pool,
            ({
                let chp = old(self).creator.stat.hp;
                let php = old(self).participant.unwrap().stat.hp;
                let ended = chp == 0 || php == 0;
                &&& (!ended ==> *final(self) == *old(self) && effects@ =~= Seq::<Effect>::empty())
                &&& (ended ==> ({
                    &&& final(self).game_over == true
                    &&& final(self).state_id == Some(old(self).next_epoch)
                    &&& final(self).next_epoch == next_epoch_after(old(self).next_epoch)
                    &&& effects@ =~= seq![
                        send_effect(Recipient::Creator, game_result_response(php == 0)),
                        send_effect(Recipient::Participant, game_result_response(chp == 0)),
                        game_end_effect(),
                    ]
                }))
            }),
    {
        let chp = self.creator.stat.hp;
        let php = match &self.participant {
            Some(p) => p.stat.hp,
            None => 1,
        };
        if chp != 0 && php != 0 {
            return Vec::new();
        }
        let mut effects: Vec<Effect> = Vec::new();
        effects.push(Effect::Send {
            to: Recipient::Creator,
            response: ServerResponse {
                response_type: ResponseType::GameResult,
                value: ResponseValue::GameResult(php == 0),
            },
        });
        effects.push(Effect::Send {
            to: Recipient::Participant,
            response: ServerResponse {
                response_type: ResponseType::GameResult,
                value: ResponseValue::GameResult(chp == 0),
            },
        });
        let mut endfx = self.end_game();
        effects.append(&mut endfx);
        effects
    }

    /// Reports the round result to both players, each from their own
    /// point of view, and then checks whether the match is decided.
    fn send_showdown_result(
        &mut self,
        comparison: RoundOutcome,
        user_comb: CardCombination,
        part_comb: CardCombination,
    ) -> (effects: Vec<Effect>)
        requires
            old(self).complete(),
        ensures
            final(self).complete(),
            final(self).creator == old(self).creator,
            final(self).participant == old(self).participant,
            final(self).state == old(self).state,
            final(self).state_extend == old(self).state_extend,
            final(self).community == old(self).community,
            final(self).card_pool == old(self).card_pool,
            ({
                let chp = old(self).creator.stat.hp;
                let php = old(self).participant.unwrap().stat.hp;
                let ended = chp == 0 || php == 0;
                &&& (!ended ==> final(self).game_over == old(self).game_over && final(self).state_id == old(self).state_id && final(self).next_epoch == old(self).next_epoch)
                &&& (ended ==> final(self).game_over == true && final(self).state_id == Some(
                    old(self).next_epoch,
                ) && final(self).next_epoch == next_epoch_after(old(self).next_epoch))
                &&& effects@.len() == (if ended {
                    5int
                } else {
                    2int
                })
                &&& effects@[0] == send_effect(
                    Recipient::Creator,
                    round_result_response(
                        creator_win_flag(comparison),
                        old(self).creator.stat.fold,
                        old(self).participant.unwrap().stat.fold,
                        user_comb,
                        part_comb,
                        chp,
                        php,
                    ),
                )
                &&& effects@[1] == send_effect(
                    Recipient::Participant,
                    round_result_response(
                        participant_win_flag(comparison),
                        old(self).participant.unwrap().stat.fold,
                        old(self).creator.stat.fold,
                        part_comb,
                        user_comb,
                        php,
                        chp,
                    ),
                )
                &&& (ended ==> effects@[2] == send_effect(
                    Recipient::Creator,
                    game_result_response(php == 0),
                ) && effects@[3] == send_effect(
                    Recipient::Participant,
                    game_result_response(chp == 0),
                ) && effects@[4] == game_end_effect())
            }),
    {
        let win_c: Option<bool> = match comparison {
            RoundOutcome::CreatorWins => Some(true),
            RoundOutcome::ParticipantWins => Some(false),
            RoundOutcome::Draw => None,
        };
        let win_p: Option<bool> = match comparison {
            RoundOutcome::CreatorWins => Some(false),
            RoundOutcome::ParticipantWins => Some(true),
            RoundOutcome::Draw => None,
        };
        let c_fold = self.creator.stat.fold;
        let chp = self.creator.stat.hp;
        let (p_fold, php) = match &self.participant {
            Some(p) => (p.stat.fold, p.stat.hp),
            None => (false, 1),
        };
        let mut effects: Vec<Effect> = Vec::new();
        effects.push(Effect::Send {
            to: Recipient::Creator,
            response: ServerResponse {
                response_type: ResponseType::RoundResult,
                value: ResponseValue::RoundResult(
                    RoundResult {
                        win: win_c,
                        fold: c_fold,
                        opp_fold: p_fold,
                        comb: user_comb,
                        opp_comb: part_comb,
                        hp: chp,
                        opp_hp: php,
                    },
                ),
            },
        });
        effects.push(Effect::Send {
            to: Recipient::Participant,
            response: ServerResponse {
                response_type: ResponseType::RoundResult,
                value: ResponseValue::RoundResult(
                    RoundResult {
                        win: win_p,
                        fold: p_fold,
                        opp_fold: c_fold,
                        comb: part_comb,
                        opp_comb: user_comb,
                        hp: php,
                        opp_hp: chp,
                    },
                ),
            },
        });
        let mut gfx = self.send_game_result();
        effects.append(&mut gfx);
        effects
    }

    /// Runs the showdown: a folded player loses outright, otherwise
    /// the hands decide; the loser's balance drops by the pot, floored
    /// at zero, and both players get the round result.  A balance at
    /// zero ends the match.
    fn calculate_showdown(&mut self) -> (effects: Vec<Effect>)
        requires
            old(self).complete(),
            old(self).dealt(),
        ensures
            final(self).complete(),
            final(self).dealt(),
            final(self).state == old(self).state,
            final(self).state_extend == old(self).state_extend,
            final(self).community == old(self).community,
            final(self).card_pool == old(self).card_pool,
            final(self).creator.id == old(self).creator.id,
            final(self).creator.current_action == old(self).creator.current_action,
            final(self).creator.stat.cards == old(self).creator.stat.cards,
            final(self).creator.stat.bet == old(self).creator.stat.bet,
            final(self).creator.stat.fold == old(self).creator.stat.fold,
            final(self).participant.unwrap().id == old(self).participant.unwrap().id,
            final(self).participant.unwrap().current_action == old(self).participant.unwrap().current_action,
            final(self).participant.unwrap().stat.cards == old(self).participant.unwrap().stat.cards,
            final(self).participant.unwrap().stat.bet == old(self).participant.unwrap().stat.bet,
            final(self).participant.unwrap().stat.fold == old(self).participant.unwrap().stat.fold,
            ({
                let out = old(self).round_outcome();
                let pot = old(self).pot();
                let chp = if out is ParticipantWins {
                    sat_sub_u32(old(self).creator.stat.hp, pot)
                } else {
                    old(self).creator.stat.hp
                };
                let php = if out is CreatorWins {
                    sat_sub_u32(old(self).participant.unwrap().stat.hp, pot)
                } else {
                    old(self).participant.unwrap().stat.hp
                };
                let ended = chp == 0 || php == 0;
                &&& final(self).creator.stat.hp == chp
                &&& final(self).participant.unwrap().stat.hp == php
                &&& final(self).game_over == (old(self).game_over || ended)
                &&& (!ended ==> final(self).state_id == old(self).state_id && final(self).next_epoch == old(self).next_epoch)
                &&& (ended ==> final(self).state_id == Some(old(self).next_epoch) && final(self).next_epoch == next_epoch_after(old(self).next_epoch))
                &&& effects@.len() == (if ended {
                    5int
                } else {
                    2int
                })
                &&& effects@[0] == send_effect(
                    Recipient::Creator,
                    round_result_response(
                        creator_win_flag(out),
                        old(self).creator.stat.fold,
                        old(self).participant.unwrap().stat.fold,
                        best_combination(old(self).creator_cards()),
                        best_combination(old(self).participant_cards()),
                        chp,
                        php,
                    ),
                )
                &&& effects@[1] == send_effect(
                    Recipient::Participant,
                    round_result_response(
                        participant_win_flag(out),
                        old(self).participant.unwrap().stat.fold,
                        old(self).creator.stat.fold,
                        best_combination(old(self).participant_cards()),
                        best_combination(old(self).creator_cards()),
                        php,
                        chp,
                    ),
                )
                &&& (ended ==> effects@[2] == send_effect(
                    Recipient::Creator,
                    game_result_response(php == 0),
                ) && effects@[3] == send_effect(
                    Recipient::Participant,
                    game_result_response(chp == 0),
                ) && effects@[4] == game_end_effect())
            }),
    {
        let creator_fold = self.creator.stat.fold;
        let part_fold = match &self.participant {
            Some(p) => p.stat.fold,
            None => false,
        };
        let user_cards = concat_cards(&self.community, &self.creator.stat.cards);
        let part_cards = match &self.participant {
            Some(p) => concat_cards(&self.community, &p.stat.cards),
            None => Vec::new(),
        };
        proof {
            lemma_all_valid_concat(self.community@, self.creator.stat.cards@);
            lemma_all_valid_concat(self.community@, self.participant.unwrap().stat.cards@);
        }
        let (user_comb, user_meta) = evaluate(&user_cards);
        let (part_comb, part_meta) = evaluate(&part_cards);

        let outcome: RoundOutcome = if creator_fold {
            RoundOutcome::ParticipantWins
        } else if part_fold {
            RoundOutcome::CreatorWins
        } else {
            let co = user_comb.ordinal();
            let po = part_comb.ordinal();
            if co > po {
                RoundOutcome::CreatorWins
            } else if po > co {
                RoundOutcome::ParticipantWins
            } else {
                match (user_meta, part_meta) {
                    (Some(cm), Some(pm)) => {
                        if cm > pm {
                            RoundOutcome::CreatorWins
                        } else if pm > cm {
                            RoundOutcome::ParticipantWins
                        } else {
                            RoundOutcome::Draw
                        }
                    },
                    _ => RoundOutcome::Draw,
                }
            }
        };
        proof {
            assert(outcome == old(self).round_outcome());
        }

        match outcome {
            RoundOutcome::CreatorWins => {
                let total = self.get_total_bet();
                let mut p = self.participant.take().unwrap();
                p.apply_damage(total);
                self.participant = Some(p);
            },
            RoundOutcome::ParticipantWins => {
                let total = self.get_total_bet();
                self.creator.apply_damage(total);
            },
            RoundOutcome::Draw => {},
        }
        self.send_showdown_result(outcome, user_comb, part_comb)
    }

    /// Performs one transition from `current_state`: deal towards the
    /// showdown, run the showdown, or reset for the next round; then
    /// clear both declared actions, issue a fresh epoch and broadcast
    /// the new state under it.  Entering the showdown also schedules
    /// the short showdown deadline.
    fn change_state(&mut self, current_state: GameState) -> (effects: Vec<Effect>)
        requires
            old(self).complete(),
            old(self).dealt(),
            !old(self).game_over,
            old(self).creator.stat.hp > 0,
            old(self).participant.unwrap().stat.hp > 0,
            current_state == old(self).state || current_state is Fold,
            !(old(self).state is Fold),
        ensures
            final(self).wf(),
            advance_rel(*old(self), *final(self), current_state, effects@),
    {
        let mut effects: Vec<Effect> = Vec::new();
        let mut new_card: Option<Card> = None;
        match current_state {
            GameState::Flop => {
                self.state = GameState::Turn;
                let c = self.add_community();
                new_card = Some(c);
            },
            GameState::Turn => {
                self.state = GameState::River;
                let c = self.add_community();
                new_card = Some(c);
            },
            GameState::River | GameState::Fold => {
                self.state = GameState::ShowDown;
                let mut fx = self.calculate_showdown();
                effects.append(&mut fx);
            },
            GameState::ShowDown => {
                self.state = GameState::Flop;
                self.clear_user_bet();
                let mut fx = self.init_cards_and_send();
                effects.append(&mut fx);
            },
        }
        self.clear_user_action();
        let ghost base = effects@.len() as int;
        let mut sfx = self.set_state_id_and_send();
        effects.append(&mut sfx);
        match new_card {
            Some(card) => {
                let mut v1: Vec<Card> = Vec::new();
                v1.push(card);
                effects.push(Effect::Send {
                    to: Recipient::Creator,
                    response: ServerResponse {
                        response_type: ResponseType::Community,
                        value: ResponseValue::Card(v1),
                    },
                });
                let mut v2: Vec<Card> = Vec::new();
                v2.push(card);
                effects.push(Effect::Send {
                    to: Recipient::Participant,
                    response: ServerResponse {
                        response_type: ResponseType::Community,
                        value: ResponseValue::Card(v2),
                    },
                });
            },
            None => {},
        }
        if self.state == GameState::ShowDown {
            let epoch = match &self.state_id {
                Some(e) => *e,
                None => 0,
            };
            effects.push(Effect::Schedule { request: new_timeout_request(epoch, SHOWDOWN_TIME) });
        }
        proof {
            let fx = effects@;
            assert(fx[base].is_send_to(Recipient::Creator, ResponseType::State));
            assert(fx[base + 1].is_send_to(Recipient::Participant, ResponseType::State));
            if self.state is ShowDown {
                assert(fx[fx.len() - 1].is_timeout_for(self.state_id.unwrap(), SHOWDOWN_TIME));
            }
            if self.game_over {
                assert(fx[2].is_send_to(Recipient::Creator, ResponseType::GameResult));
                assert(fx[3].is_send_to(Recipient::Participant, ResponseType::GameResult));
            }
            if current_state is ShowDown {
                assert(fx[0].is_send_to(Recipient::Creator, ResponseType::Community));
                assert(fx[1].is_send_to(Recipient::Participant, ResponseType::Community));
                assert(fx[2].is_send_to(Recipient::Creator, ResponseType::Hand));
                assert(fx[3].is_send_to(Recipient::Participant, ResponseType::Hand));
            }
            if current_state is Flop || current_state is Turn {
                assert(fx[base + 3].is_send_to(Recipient::Creator, ResponseType::Community));
                assert(fx[base + 4].is_send_to(Recipient::Participant, ResponseType::Community));
                assert(self.community@.take(old(self).community@.len() as int) =~= old(self).community@);
            }
        }
        effects
    }

    /// The deadline path of advancement: fires when a scheduled
    /// deadline for `state_id` expires.  A deadline whose epoch is no
    /// longer current, or that reaches a finished room, changes
    /// nothing.  Otherwise players who never declared are checked off
    /// and the round advances from the room's state.
    pub fn next_state(&mut self, state_id: u64) -> (effects: Vec<Effect>)
        requires
            old(self).wf(),
        ensures
            final(self).wf(),
            !old(self).accepts_epoch(state_id) ==> *final(self) == *old(self) && effects@ =~= Seq::<
                Effect,
            >::empty(),
            old(self).accepts_epoch(state_id) ==> advance_rel(
                *old(self),
                *final(self),
                old(self).state,
                effects@,
            ),
    {
        let accepted = !self.game_over && (match &self.state_id {
            Some(e) => *e == state_id,
            None => false,
        });
        if !accepted {
            return Vec::new();
        }
        self.no_response_check();
        let ghost mid = *self;
        let st = self.state;
        let fx = self.change_state(st);
        proof {
            assert(mid.creator_cards() == old(self).creator_cards());
            assert(mid.participant_cards() == old(self).participant_cards());
            assert(mid.round_outcome() == old(self).round_outcome());
            assert(mid.pot() == old(self).pot());
        }
        fx
    }

    /// The player path of advancement: applies a pending transition
    /// that `receive_player_action` produced.  An empty carrier, a
    /// stale one, or a finished room changes nothing.
    pub fn pending_next_state(&mut self, pending: Pending) -> (effects: Vec<Effect>)
        requires
            old(self).wf(),
        ensures
            final(self).wf(),
            !old(self).pending_ready(pending) ==> *final(self) == *old(self) && effects@ =~= Seq::<
                Effect,
            >::empty(),
            old(self).pending_ready(pending) ==> advance_rel(
                *old(self),
                *final(self),
                pending.0.unwrap(),
                effects@,
            ),
    {
        if self.game_over {
            return Vec::new();
        }
        let has_epoch = match &self.state_id {
            Some(_) => true,
            None => false,
        };
        if !has_epoch {
            return Vec::new();
        }
        match pending.0 {
            Some(st) => {
                if st == self.state || st == GameState::Fold {
                    self.change_state(st)
                } else {
                    Vec::new()
                }
            },
            None => Vec::new(),
        }
    }
}

/// The `Env` message a fresh room announces to both players.
pub open spec fn env_response() -> ServerResponse {
    ServerResponse {
        response_type: ResponseType::Env,
        value: ResponseValue::Env(
            EnvVar { hp: DEFAULT_HP, bet_time: BET_TIME, result_time: SHOWDOWN_TIME },
        ),
    }
}

/// The `State` message a room broadcasts after issuing epoch `epoch`.
pub open spec fn state_response(state: GameState, epoch: u64) -> ServerResponse {
    ServerResponse {
        response_type: ResponseType::State,
        value: ResponseValue::State(state, epoch),
    }
}

/// The notice the opponent gets when a player raises by `amount`.
pub open spec fn raise_response(amount: u32) -> ServerResponse {
    ServerResponse { response_type: ResponseType::Raise, value: ResponseValue::Raise(amount) }
}

/// The notice the raiser gets that the betting deadline was extended.
pub open spec fn delay_response() -> ServerResponse {
    ServerResponse {
        response_type: ResponseType::Delay,
        value: ResponseValue::Number(BET_TIME as i32),
    }
}

/// The settlement notice: the opponent's settled action and the pot.
pub open spec fn bet_result_response(opponent_action: PlayerAction, total_bet: u32) -> ServerResponse {
    ServerResponse {
        response_type: ResponseType::BetResult,
        value: ResponseValue::BetResult(BetResult { opponent_action, total_bet }),
    }
}

/// A `Call` is recorded as a `Raise` for settlement comparison; every
/// other action is recorded as itself.
pub open spec fn effective_action(a: PlayerAction) -> PlayerAction {
    if a is Call {
        PlayerAction::Raise
    } else {
        a
    }
}

/// The state a round advances to from `st`: the rounds cycle, and a
/// settled fold routes straight into the showdown.
pub open spec fn next_round_state(st: GameState) -> GameState {
    match st {
        GameState::Flop => GameState::Turn,
        GameState::Turn => GameState::River,
        GameState::River => GameState::ShowDown,
        GameState::Fold => GameState::ShowDown,
        GameState::ShowDown => GameState::Flop,
    }
}

/// The creator's win flag in a round result.
pub open spec fn creator_win_flag(out: RoundOutcome) -> Option<bool> {
    match out {
        RoundOutcome::CreatorWins => Some(true),
        RoundOutcome::ParticipantWins => Some(false),
        RoundOutcome::Draw => None,
    }
}

/// The participant's win flag in a round result.
pub open spec fn participant_win_flag(out: RoundOutcome) -> Option<bool> {
    match out {
        RoundOutcome::CreatorWins => Some(false),
        RoundOutcome::ParticipantWins => Some(true),
        RoundOutcome::Draw => None,
    }
}

/// The showdown notice built from one player's point of view.
pub open spec fn round_result_response(
    win: Option<bool>,
    fold: bool,
    opp_fold: bool,
    comb: CardCombination,
    opp_comb: CardCombination,
    hp: u32,
    opp_hp: u32,
) -> ServerResponse {
    ServerResponse {
        response_type: ResponseType::RoundResult,
        value: ResponseValue::RoundResult(
            RoundResult { win, fold, opp_fold, comb, opp_comb, hp, opp_hp },
        ),
    }
}

/// The match-end notice: whether the receiving player won the match.
pub open spec fn game_result_response(win: bool) -> ServerResponse {
    ServerResponse {
        response_type: ResponseType::GameResult,
        value: ResponseValue::GameResult(win),
    }
}

/// The internal request that retires the room.
pub open spec fn game_end_effect() -> Effect {
    Effect::Schedule {
        request: InternalRequest { request_type: IntReqType::GameEnd, value: IntReqValue::Empty },
    }
}

/// What one authorized transition does to a room.  `pre` and `post`
/// are the room before and after; `current_state` is the state the
/// transition advances from; `effects` is what the room wants
/// delivered.  Advancing into the showdown settles the round economy:
/// the loser's balance drops by the pot, floored at zero, and a
/// balance reaching zero retires the room.  Advancing out of the
/// showdown resets bets and re-deals.  Every transition clears both
/// declared actions, issues a fresh epoch and broadcasts the new state
/// under it.
pub open spec fn advance_rel(
    pre: Game,
    post: Game,
    current_state: GameState,
    effects: Seq<Effect>,
) -> bool {
    let showdown = next_round_state(current_state) is ShowDown;
    let out = pre.round_outcome();
    let pot = pre.pot();
    let chp = if showdown && out is ParticipantWins {
        sat_sub_u32(pre.creator.stat.hp, pot)
    } else {
        pre.creator.stat.hp
    };
    let php = if showdown && out is CreatorWins {
        sat_sub_u32(pre.participant.unwrap().stat.hp, pot)
    } else {
        pre.participant.unwrap().stat.hp
    };
    let ended = showdown && (chp == 0 || php == 0);
    let epoch = if ended {
        next_epoch_after(pre.next_epoch)
    } else {
        pre.next_epoch
    };
    &&& post.complete()
    &&& post.dealt()
    &&& post.state == next_round_state(current_state)
    &&& post.creator.current_action is Idle
    &&& post.participant.unwrap().current_action is Idle
    &&& post.state_extend == false
    &&& post.creator.id == pre.creator.id
    &&& post.participant.unwrap().id == pre.participant.unwrap().id
    &&& post.creator.stat.hp == chp
    &&& post.participant.unwrap().stat.hp == php
    &&& post.game_over == ended
    &&& post.state_id == Some(epoch)
    &&& contains_send(effects, Recipient::Creator, ResponseType::State)
    &&& contains_send(effects, Recipient::Participant, ResponseType::State)
    &&& (showdown ==> ({
        &&& effects.len() >= 2
        &&& effects[0] == send_effect(
            Recipient::Creator,
            round_result_response(
                creator_win_flag(out),
                pre.creator.stat.fold,
                pre.participant.unwrap().stat.fold,
                best_combination(pre.creator_cards()),
                best_combination(pre.participant_cards()),
                chp,
                php,
            ),
        )
        &&& effects[1] == send_effect(
            Recipient::Participant,
            round_result_response(
                participant_win_flag(out),
                pre.participant.unwrap().stat.fold,
                pre.creator.stat.fold,
                best_combination(pre.participant_cards()),
                best_combination(pre.creator_cards()),
                php,
                chp,
            ),
        )
        &&& exists|i: int|
            0 <= i < effects.len() && (#[trigger] effects[i]).is_timeout_for(
                epoch,
                SHOWDOWN_TIME,
            )
    }))
    &&& (ended ==> contains_send(effects, Recipient::Creator, ResponseType::GameResult)
        && contains_send(effects, Recipient::Participant, ResponseType::GameResult))
    &&& effects.len() == (if current_state is ShowDown {
        7int
    } else if showdown {
        (if ended {
            9int
        } else {
            6int
        })
    } else {
        5int
    })
    &&& (current_state is Flop || current_state is Turn ==> ({
        &&& post.community@.len() == pre.community@.len() + 1
        &&& post.community@.take(pre.community@.len() as int) == pre.community@
        &&& post.creator.stat.cards == pre.creator.stat.cards
        &&& post.participant.unwrap().stat.cards == pre.participant.unwrap().stat.cards
        &&& post.creator.stat.bet == pre.creator.stat.bet
        &&& post.participant.unwrap().stat.bet == pre.participant.unwrap().stat.bet
        &&& post.creator.stat.fold == pre.creator.stat.fold
        &&& post.participant.unwrap().stat.fold == pre.participant.unwrap().stat.fold
        &&& contains_send(effects, Recipient::Creator, ResponseType::Community)
        &&& contains_send(effects, Recipient::Participant, ResponseType::Community)
    }))
    &&& (current_state is River || current_state is Fold ==> ({
        &&& post.community == pre.community
        &&& post.creator.stat.cards == pre.creator.stat.cards
        &&& post.participant.unwrap().stat.cards == pre.participant.unwrap().stat.cards
        &&& post.creator.stat.bet == pre.creator.stat.bet
        &&& post.participant.unwrap().stat.bet == pre.participant.unwrap().stat.bet
        &&& post.creator.stat.fold == pre.creator.stat.fold
        &&& post.participant.unwrap().stat.fold == pre.participant.unwrap().stat.fold
    }))
    &&& (current_state is ShowDown ==> ({
        &&& post.community@.len() == 3
        &&& post.creator.stat.bet == 0
        &&& post.participant.unwrap().stat.bet == 0
        &&& post.creator.stat.fold == false
        &&& post.participant.unwrap().stat.fold == false
        &&& contains_send(effects, Recipient::Creator, ResponseType::Hand)
        &&& contains_send(effects, Recipient::Participant, ResponseType::Hand)
    }))
}

/// `e` hands the card list `cards` of kind `rt` to `to`.
pub open spec fn sends_cards(e: Effect, to: Recipient, rt: ResponseType, cards: Seq<Card>) -> bool {
    &&& e matches Effect::Send { to: t, response }
    &&& t == to
    &&& response.response_type == rt
    &&& response.value matches ResponseValue::Card(v)
    &&& v@ == cards
}

/// `e` hands the text `text` to `to`.
pub open spec fn sends_text(e: Effect, to: Recipient, text: Seq<char>) -> bool {
    &&& e matches Effect::Send { to: t, response }
    &&& t == to
    &&& response.response_type is Message
    &&& response.value matches ResponseValue::Message(s)
    &&& s@ == text
}

/// One registry entry: a room id and the room's state machine.
pub struct Connection {
    pub room_id: String,
    pub game: Game,
}

impl Connection {
    pub fn new(creator_id: String, room_id: String) -> (c: Connection)
        ensures
            c.room_id == room_id,
            c.game.wf(),
            c.game.creator.id == creator_id,
            c.game.state is Flop,
            c.game.state_id is None,
            c.game.participant is None,
            c.game.game_over == false,
    {
        Connection { room_id, game: Game::new(creator_id) }
    }
}

/// Two valid card lists laid end to end stay valid.
proof fn lemma_all_valid_concat(a: Seq<Card>, b: Seq<Card>)
    requires
        all_valid(a),
        all_valid(b),
    ensures
        all_valid(a + b),
{
    assert forall|i: int| 0 <= i < (a + b).len() implies ((#[trigger] (a + b)[i])).valid() by {
        if i < a.len() {
            assert((a + b)[i] == a[i]);
        } else {
            assert((a + b)[i] == b[i - a.len()]);
        }
    }
}

/// An element-for-element copy of a card list.
fn copy_cards(src: &Vec<Card>) -> (r: Vec<Card>)
    ensures
        r@ == src@,
{
    let mut r: Vec<Card> = Vec::new();
    let mut i: usize = 0;
    while i < src.len()
        invariant
            i <= src@.len(),
            r@ == src@.take(i as int),
        decreases src@.len() - i,
    {
        r.push(src[i]);
        proof {
            assert(src@.take(i as int).push(src@[i as int]) =~= src@.take(i + 1));
        }
        i = i + 1;
    }
    proof {
        assert(src@.take(src@.len() as int) =~= src@);
    }
    r
}

/// The two lists laid end to end, for building a showdown hand.
fn concat_cards(a: &Vec<Card>, b: &Vec<Card>) -> (r: Vec<Card>)
    ensures
        r@ == a@ + b@,
{
    let mut r = copy_cards(a);
    let mut i: usize = 0;
    while i < b.len()
        invariant
            i <= b@.len(),
            r@ == a@ + b@.take(i as int),
        decreases b@.len() - i,
    {
        r.push(b[i]);
        proof {
            assert((a@ + b@.take(i as int)).push(b@[i as int]) =~= a@ + b@.take(i + 1));
        }
        i = i + 1;
    }
    proof {
        assert(a@ + b@.take(b@.len() as int) =~= a@ + b@);
    }
    r
}

} // verus!
