use poker_duel::game::{Connection, Game, GameState, PlayerAction, User};
use poker_duel::messages::{
    Effect, IntReqType, InternalRequest, Recipient, ResponseType, ResponseValue, ServerResponse,
    UserRequest,
};

fn req(epoch: u64, action: PlayerAction, value: Option<u32>) -> UserRequest {
    UserRequest { state_id: epoch, action, value }
}

fn count_sends(fx: &[Effect], to: Recipient, rt: ResponseType) -> usize {
    fx.iter()
        .filter(|e| match e {
            Effect::Send { to: t, response } => *t == to && response.response_type == rt,
            _ => false,
        })
        .count()
}

fn count_timeouts(fx: &[Effect]) -> usize {
    fx.iter()
        .filter(|e| match e {
            Effect::Schedule { request } => request.request_type == IntReqType::TimeOut,
            _ => false,
        })
        .count()
}

fn card_payload_len(fx: &[Effect], to: Recipient, rt: ResponseType) -> usize {
    for e in fx {
        if let Effect::Send { to: t, response } = e {
            if *t == to && response.response_type == rt {
                if let ResponseValue::Card(v) = &response.value {
                    return v.len();
                }
            }
        }
    }
    panic!("no card payload of that kind");
}

fn round_result_win(fx: &[Effect], to: Recipient) -> Option<bool> {
    for e in fx {
        if let Effect::Send { to: t, response } = e {
            if *t == to && response.response_type == ResponseType::RoundResult {
                if let ResponseValue::RoundResult(rr) = &response.value {
                    return rr.win;
                }
            }
        }
    }
    panic!("no round result for that player");
}

fn game_result_flag(fx: &[Effect], to: Recipient) -> bool {
    for e in fx {
        if let Effect::Send { to: t, response } = e {
            if *t == to && response.response_type == ResponseType::GameResult {
                if let ResponseValue::GameResult(w) = &response.value {
                    return *w;
                }
            }
        }
    }
    panic!("no game result for that player");
}

fn fresh_room() -> (Game, String, String) {
    let a = "alice".to_string();
    let b = "bob".to_string();
    let mut g = Game::new(a.clone());
    let fx = g.join_game(b.clone());
    assert_eq!(fx.len(), 9);
    (g, a, b)
}

fn epoch(g: &Game) -> u64 {
    g.state_id.unwrap()
}

#[test]
fn room_setup_broadcasts_env_cards_and_state() {
    let mut g = Game::new("alice".to_string());
    let fx = g.join_game("bob".to_string());
    assert_eq!(fx.len(), 9);
    for rt in [ResponseType::Env, ResponseType::Community, ResponseType::Hand, ResponseType::State]
    {
        assert_eq!(count_sends(&fx, Recipient::Creator, rt), 1);
        assert_eq!(count_sends(&fx, Recipient::Participant, rt), 1);
    }
    assert_eq!(card_payload_len(&fx, Recipient::Creator, ResponseType::Community), 3);
    assert_eq!(card_payload_len(&fx, Recipient::Creator, ResponseType::Hand), 2);
    assert_eq!(card_payload_len(&fx, Recipient::Participant, ResponseType::Hand), 2);
    assert_eq!(count_timeouts(&fx), 1);
    match &fx[6] {
        Effect::Send { to: Recipient::Creator, response } => match &response.value {
            ResponseValue::State(st, e) => {
                assert_eq!(*st, GameState::Flop);
                assert_eq!(*e, 1);
            },
            _ => panic!("sixth effect is not the state broadcast"),
        },
        _ => panic!("sixth effect is not addressed to the creator"),
    }
    assert_eq!(epoch(&g), 1);
    assert_eq!(g.community.len(), 3);
}

#[test]
fn second_join_is_rejected() {
    let (mut g, _a, _b) = fresh_room();
    let fx = g.join_game("carol".to_string());
    assert!(fx.is_empty());
    assert_eq!(g.participant.as_ref().unwrap().id, "bob");
}

#[test]
fn both_checks_settle_and_advance() {
    let (mut g, a, b) = fresh_room();
    let (p1, fx1) = g.receive_player_action(&a, req(1, PlayerAction::Check, None));
    assert!(p1.0.is_none());
    assert!(fx1.is_empty());
    let (p2, fx2) = g.receive_player_action(&b, req(1, PlayerAction::Check, None));
    assert_eq!(p2.0, Some(GameState::Flop));
    assert_eq!(count_sends(&fx2, Recipient::Creator, ResponseType::BetResult), 1);
    assert_eq!(count_sends(&fx2, Recipient::Participant, ResponseType::BetResult), 1);
    let fx3 = g.pending_next_state(p2);
    assert_eq!(g.state, GameState::Turn);
    assert_eq!(epoch(&g), 2);
    assert_eq!(g.community.len(), 4);
    assert_eq!(count_sends(&fx3, Recipient::Creator, ResponseType::State), 1);
    assert_eq!(count_sends(&fx3, Recipient::Participant, ResponseType::State), 1);
    assert_eq!(card_payload_len(&fx3, Recipient::Creator, ResponseType::Community), 1);
    assert_eq!(card_payload_len(&fx3, Recipient::Participant, ResponseType::Community), 1);
}

#[test]
fn unequal_actions_do_not_settle() {
    let (mut g, a, b) = fresh_room();
    let (p1, _) = g.receive_player_action(&a, req(1, PlayerAction::Check, None));
    assert!(p1.0.is_none());
    let (p2, _) = g.receive_player_action(&b, req(1, PlayerAction::Raise, Some(2)));
    assert!(p2.0.is_none());
}

#[test]
fn a_call_matches_a_raise() {
    let (mut g, a, b) = fresh_room();
    let (p1, _) = g.receive_player_action(&a, req(1, PlayerAction::Raise, Some(3)));
    assert!(p1.0.is_none());
    let (p2, _) = g.receive_player_action(&b, req(1, PlayerAction::Call, Some(3)));
    assert_eq!(p2.0, Some(GameState::Flop));
}

#[test]
fn stale_epoch_is_ignored() {
    let (mut g, a, b) = fresh_room();
    let (_, _) = g.receive_player_action(&a, req(1, PlayerAction::Check, None));
    let (p, _) = g.receive_player_action(&b, req(1, PlayerAction::Check, None));
    let _ = g.pending_next_state(p);
    assert_eq!(epoch(&g), 2);

    let state_before = g.state;
    let community_before = g.community.clone();
    let creator_hand_before = g.creator.stat.cards.clone();
    let part_hand_before = g.participant.as_ref().unwrap().stat.cards.clone();

    // the deadline of the previous epoch fires late: nothing moves
    let fx = g.next_state(1);
    assert!(fx.is_empty());
    assert_eq!(g.state, state_before);
    assert_eq!(g.community, community_before);
    assert_eq!(g.creator.stat.cards, creator_hand_before);
    assert_eq!(g.participant.as_ref().unwrap().stat.cards, part_hand_before);

    // a player request against the previous epoch is dropped too
    let (p2, fx2) = g.receive_player_action(&a, req(1, PlayerAction::Fold, None));
    assert!(p2.0.is_none());
    assert!(fx2.is_empty());
    assert!(!g.creator.stat.fold);
}

#[test]
fn raise_extends_the_deadline_once_per_epoch() {
    let (mut g, a, _b) = fresh_room();
    let (_, fx1) = g.receive_player_action(&a, req(1, PlayerAction::Raise, Some(2)));
    assert_eq!(count_timeouts(&fx1), 1);
    assert_eq!(count_sends(&fx1, Recipient::Participant, ResponseType::Raise), 1);
    assert_eq!(count_sends(&fx1, Recipient::Creator, ResponseType::Delay), 1);
    assert!(g.state_extend);

    // a second raise in the same epoch schedules no second deadline
    let (_, fx2) = g.receive_player_action(&a, req(1, PlayerAction::Raise, Some(2)));
    assert_eq!(count_timeouts(&fx2), 0);
    assert_eq!(count_sends(&fx2, Recipient::Creator, ResponseType::Delay), 0);
    assert_eq!(count_sends(&fx2, Recipient::Participant, ResponseType::Raise), 1);
    assert!(g.state_extend);
}

#[test]
fn raising_after_a_fold_forfeits_one_unit() {
    let (mut g, a, b) = fresh_room();
    // the creator folds, but the pending transition is not applied yet
    let (p1, _) = g.receive_player_action(&a, req(1, PlayerAction::Fold, None));
    assert_eq!(p1.0, Some(GameState::Fold));
    // the participant raises into the fold: the raise is docked one unit
    let (p2, _) = g.receive_player_action(&b, req(1, PlayerAction::Raise, Some(5)));
    assert_eq!(p2.0, Some(GameState::Fold));
    assert_eq!(g.participant.as_ref().unwrap().stat.bet, 4);
}

#[test]
fn an_incomplete_room_ignores_actions() {
    let a = "alice".to_string();
    let mut g = Game::new(a.clone());
    let (p, fx) = g.receive_player_action(&a, req(0, PlayerAction::Check, None));
    assert!(p.0.is_none());
    assert!(fx.is_empty());
    assert!(g.init_game().is_empty());
}

#[test]
fn a_new_epoch_makes_the_extension_available_again() {
    let (mut g, a, b) = fresh_room();
    let (_, fx1) = g.receive_player_action(&a, req(1, PlayerAction::Raise, Some(1)));
    assert_eq!(count_timeouts(&fx1), 1);
    let (p, _) = g.receive_player_action(&b, req(1, PlayerAction::Call, Some(1)));
    let _ = g.pending_next_state(p);
    assert_eq!(epoch(&g), 2);
    assert!(!g.state_extend);
    let (_, fx2) = g.receive_player_action(&a, req(2, PlayerAction::Raise, Some(1)));
    assert_eq!(count_timeouts(&fx2), 1);
}

#[test]
fn deadline_checks_silent_players_and_advances() {
    let (mut g, _a, _b) = fresh_room();
    let fx = g.next_state(1);
    assert_eq!(g.state, GameState::Turn);
    assert_eq!(g.community.len(), 4);
    assert_eq!(epoch(&g), 2);
    assert_eq!(count_sends(&fx, Recipient::Creator, ResponseType::State), 1);
}

#[test]
fn fold_at_river_loses_regardless_of_cards() {
    let (mut g, a, b) = fresh_room();
    for e in [1u64, 2u64] {
        let (_, _) = g.receive_player_action(&a, req(e, PlayerAction::Check, None));
        let (p, _) = g.receive_player_action(&b, req(e, PlayerAction::Check, None));
        let _ = g.pending_next_state(p);
    }
    assert_eq!(g.state, GameState::River);
    assert_eq!(epoch(&g), 3);

    let (p, fx) = g.receive_player_action(&a, req(3, PlayerAction::Fold, None));
    assert_eq!(p.0, Some(GameState::Fold));
    assert!(fx.len() >= 2);
    let fx2 = g.pending_next_state(p);
    assert_eq!(g.state, GameState::ShowDown);
    assert_eq!(round_result_win(&fx2, Recipient::Creator), Some(false));
    assert_eq!(round_result_win(&fx2, Recipient::Participant), Some(true));
    // the pot was only the ante: the folder drops from 20 to 18
    assert_eq!(g.creator.stat.hp, 18);
    assert_eq!(g.participant.as_ref().unwrap().stat.hp, 20);
    assert_eq!(count_sends(&fx2, Recipient::Creator, ResponseType::GameResult), 0);
    assert!(!g.game_over);
}

#[test]
fn showdown_deadline_starts_the_next_round() {
    let (mut g, a, _b) = fresh_room();
    let (p, _) = g.receive_player_action(&a, req(1, PlayerAction::Fold, None));
    let _ = g.pending_next_state(p);
    assert_eq!(g.state, GameState::ShowDown);
    let e = epoch(&g);

    let fx = g.next_state(e);
    assert_eq!(g.state, GameState::Flop);
    assert_eq!(g.community.len(), 3);
    assert_eq!(g.creator.stat.bet, 0);
    assert!(!g.creator.stat.fold);
    assert_eq!(card_payload_len(&fx, Recipient::Creator, ResponseType::Hand), 2);
    assert_eq!(card_payload_len(&fx, Recipient::Participant, ResponseType::Hand), 2);
}

#[test]
fn zero_balance_ends_the_match() {
    let (mut g, a, b) = fresh_room();
    let (p1, _) = g.receive_player_action(&a, req(1, PlayerAction::Raise, Some(20)));
    assert!(p1.0.is_none());
    let (p2, _) = g.receive_player_action(&b, req(1, PlayerAction::Fold, None));
    assert_eq!(p2.0, Some(GameState::Fold));
    let fx = g.pending_next_state(p2);

    // the pot (20 + 0 + the ante) wipes out the folder's balance
    assert_eq!(g.participant.as_ref().unwrap().stat.hp, 0);
    assert!(g.game_over);
    assert!(game_result_flag(&fx, Recipient::Creator));
    assert!(!game_result_flag(&fx, Recipient::Participant));

    // the room is terminal: no event starts another round
    let e = epoch(&g);
    let state_before = g.state;
    let community_before = g.community.clone();
    let fx2 = g.next_state(e);
    assert!(fx2.is_empty());
    let (p3, fx3) = g.receive_player_action(&a, req(e, PlayerAction::Check, None));
    assert!(p3.0.is_none());
    assert!(fx3.is_empty());
    assert_eq!(g.state, state_before);
    assert_eq!(g.community, community_before);
}

#[test]
fn message_pings_the_opponent() {
    let (mut g, a, _b) = fresh_room();
    let action_before = g.creator.current_action;
    let (p, fx) = g.receive_player_action(&a, req(1, PlayerAction::Message, None));
    assert!(p.0.is_none());
    assert_eq!(fx.len(), 1);
    assert_eq!(count_sends(&fx, Recipient::Participant, ResponseType::Message), 1);
    assert_eq!(g.creator.current_action, action_before);
}

#[test]
fn broadcast_reaches_both_players() {
    let (g, _a, _b) = fresh_room();
    let fx = g.broadcast_message("hello");
    assert_eq!(fx.len(), 2);
    assert_eq!(count_sends(&fx, Recipient::Creator, ResponseType::Message), 1);
    assert_eq!(count_sends(&fx, Recipient::Participant, ResponseType::Message), 1);

    let lonely = Game::new("alice".to_string());
    assert!(lonely.broadcast_message("hello").is_empty());
}

#[test]
fn user_accounting_saturates() {
    let mut u = User::new("x".to_string());
    u.bet(5);
    assert_eq!(u.stat.bet, 5);
    u.bet(u32::MAX);
    assert_eq!(u.stat.bet, u32::MAX);
    u.fold();
    assert_eq!(u.stat.bet, 0);
    assert!(u.stat.fold);
    u.apply_damage(25);
    assert_eq!(u.stat.hp, 0);
}

#[test]
fn dummy_requests_never_match_a_room() {
    let dummy = UserRequest::dummy();
    assert_eq!(dummy.state_id, 0);
    assert_eq!(dummy.action, PlayerAction::Idle);
    assert_eq!(dummy.value, None);
    let internal = InternalRequest::dummy();
    assert_eq!(internal.request_type, IntReqType::Idle);

    let (mut g, a, _b) = fresh_room();
    let (p, fx) = g.receive_player_action(&a, dummy);
    assert!(p.0.is_none());
    assert!(fx.is_empty());
}

#[test]
fn connection_wraps_a_waiting_room() {
    let c = Connection::new("alice".to_string(), "room-1".to_string());
    assert_eq!(c.room_id, "room-1");
    assert_eq!(c.game.creator.id, "alice");
    assert!(c.game.participant.is_none());
    assert!(c.game.state_id.is_none());

    let r = ServerResponse::new(ResponseType::Message, ResponseValue::Message("hi".to_string()));
    assert_eq!(r.response_type, ResponseType::Message);
}
