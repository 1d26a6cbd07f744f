use ff_rt::{
    go, ActiveState, DecisionState, EndState, Game, Move, MoveKind, MovePair, NextGameState,
    Player, PlayerState, Separation, Transition, Turn, WallOrientation, GAME_FIELD_SIZE,
    MAX_TURNS, P1_START_POS, P2_START_POS, START_ENERGY,
};
use ff_rt::MoveKind::{Back, Forward, Lunge, NoEnergy, Stand};
use ff_rt::WallOrientation::{Against, NotAgainst};

fn st(p1_pos: i32, p1_energy: i32, p2_pos: i32, p2_energy: i32) -> ActiveState {
    ActiveState {
        p1: PlayerState { pos: p1_pos, energy: p1_energy },
        p2: PlayerState { pos: p2_pos, energy: p2_energy },
    }
}

fn mv(k1: MoveKind, s1: i32, k2: MoveKind, s2: i32) -> MovePair {
    MovePair {
        p1: Move { kind: k1, energy_spent: s1 },
        p2: Move { kind: k2, energy_spent: s2 },
    }
}

fn start() -> ActiveState {
    st(P1_START_POS, START_ENERGY, P2_START_POS, START_ENERGY)
}

#[test]
fn configuration_values() {
    assert_eq!(GAME_FIELD_SIZE, 10);
    assert_eq!(START_ENERGY, 30000);
    assert_eq!(P1_START_POS, 1);
    assert_eq!(P2_START_POS, 8);
}

#[test]
fn standing_until_turn_limit_is_a_tie() {
    let mut state = start();
    let mut turns: Vec<Turn> = Vec::new();
    let mut turn_no: i32 = 1;
    let end = loop {
        let moves = mv(MoveKind::Stand, 0, MoveKind::Stand, 0);
        let (turn, next) = state.make_move(moves, turn_no);
        assert_eq!(turn.state, state);
        turns.push(turn);
        match next {
            NextGameState::Active(s) => {
                assert_eq!(s, start());
                state = s;
                turn_no += 1;
            }
            NextGameState::End(e) => break e,
        }
    };
    assert_eq!(turn_no, MAX_TURNS);
    assert_eq!(end, EndState::TurnTie(start()));
    let game = Game { turns, end };
    assert_eq!(game.turns.len(), MAX_TURNS as usize);
    assert_eq!(game.end.winner(), "tie");
    assert_eq!(game.end.victor(), None);
}

#[test]
fn forward_into_adjacent_opponent_pushes() {
    let s = st(7, 100, 8, 100);
    let (turn, next) = s.make_move(mv(MoveKind::Forward, 10, MoveKind::Stand, 0), 1);
    assert_eq!(turn.state, s);
    assert_eq!(next, NextGameState::Active(st(8, 90, 9, 100)));
    assert!(next.validate());
}

#[test]
fn back_against_wall_is_clamped() {
    let s = st(0, 100, 8, 100);
    assert_eq!(
        go(Separation::SG, MoveKind::Back, MoveKind::Stand, WallOrientation::Against,
            WallOrientation::NotAgainst),
        Transition::ActiveWall
    );
    let (_, next) = s.make_move(mv(MoveKind::Back, 3, MoveKind::Stand, 0), 1);
    assert_eq!(next, NextGameState::Active(st(0, 97, 8, 100)));
}

#[test]
fn back_against_far_wall_is_clamped() {
    let s = st(1, 100, 9, 100);
    let (_, next) = s.make_move(mv(MoveKind::Forward, 1, MoveKind::Back, 2), 1);
    assert_eq!(next, NextGameState::Active(st(2, 99, 9, 98)));
}

#[test]
fn overspending_move_is_rejected() {
    let m = Move { kind: MoveKind::Forward, energy_spent: 10 };
    assert!(!m.fits(5));
    let s = st(1, 5, 8, 100);
    assert!(!mv(MoveKind::Forward, 10, MoveKind::Stand, 0).p1.fits(s.p1.energy));
}

#[test]
fn spend_boundary() {
    assert!(Move { kind: MoveKind::Lunge, energy_spent: 29999 }.fits(30000));
    assert!(!Move { kind: MoveKind::Lunge, energy_spent: 30000 }.fits(30000));
    assert!(!Move { kind: MoveKind::Stand, energy_spent: -1 }.fits(30000));
    assert!(Move { kind: MoveKind::Stand, energy_spent: 0 }.fits(1));
    assert!(Move { kind: MoveKind::NoEnergy, energy_spent: 0 }.fits(1));
    assert!(!Move { kind: MoveKind::NoEnergy, energy_spent: 3 }.fits(30000));
}

#[test]
fn plain_moves_apart() {
    let (_, next) = start().make_move(mv(MoveKind::Forward, 5, MoveKind::Lunge, 7), 1);
    assert_eq!(next, NextGameState::Active(st(2, 29995, 6, 29993)));
}

#[test]
fn mutual_charge_bounces() {
    let s = st(3, 100, 5, 100);
    let (_, next) = s.make_move(mv(MoveKind::Forward, 1, MoveKind::Forward, 2), 4);
    assert_eq!(next, NextGameState::Active(st(3, 99, 5, 98)));
}

#[test]
fn lunge_past_adjacent_opponent_wins() {
    let s = st(3, 100, 4, 100);
    let (_, next) = s.make_move(mv(MoveKind::Lunge, 1, MoveKind::Stand, 0), 2);
    let e = EndState::P1Victory(st(5, 99, 4, 100));
    assert_eq!(next, NextGameState::End(e));
    assert!(e.validate());
}

#[test]
fn player_two_pushes() {
    let s = st(3, 100, 4, 100);
    let (_, next) = s.make_move(mv(MoveKind::Stand, 0, MoveKind::Forward, 4), 2);
    assert_eq!(next, NextGameState::Active(st(2, 100, 3, 96)));
}

#[test]
fn player_two_lunge_past_wins() {
    let s = st(3, 100, 4, 100);
    let (_, next) = s.make_move(mv(MoveKind::Stand, 0, MoveKind::Lunge, 1), 2);
    assert_eq!(next, NextGameState::End(EndState::P2Victory(st(3, 100, 2, 99))));
}

#[test]
fn pin_at_far_wall() {
    let s = st(7, 100, 9, 100);
    let (_, next) = s.make_move(mv(MoveKind::Lunge, 1, MoveKind::Stand, 0), 3);
    assert_eq!(next, NextGameState::End(EndState::P1Pin(st(9, 99, 9, 100))));
    assert!(next.validate());
}

#[test]
fn pin_at_near_wall_is_labelled_p2_pin() {
    let s = st(0, 100, 2, 100);
    let (_, next) = s.make_move(mv(MoveKind::Stand, 0, MoveKind::Lunge, 1), 3);
    let e = EndState::P2Pin(st(0, 100, 0, 99));
    assert_eq!(next, NextGameState::End(e));
    assert_eq!(e.winner(), "player-2");
    assert_eq!(e.victor(), Some(Player::P2));
}

#[test]
fn opponent_out_of_energy_is_survived() {
    let s = st(2, 100, 6, 40);
    let (_, next) = s.make_move(mv(MoveKind::Forward, 1, MoveKind::NoEnergy, 0), 5);
    assert_eq!(next, NextGameState::End(EndState::P1Survive(st(2, 99, 6, 40))));
    let (_, next) = s.make_move(mv(MoveKind::NoEnergy, 0, MoveKind::Lunge, 30), 5);
    assert_eq!(next, NextGameState::End(EndState::P2Survive(st(2, 100, 6, 10))));
}

#[test]
fn both_out_of_energy_compares_energy() {
    let m = mv(MoveKind::NoEnergy, 0, MoveKind::NoEnergy, 0);
    let (_, next) = st(2, 5, 6, 7).make_move(m, 5);
    assert_eq!(next, NextGameState::End(EndState::P2Energy(st(2, 5, 6, 7))));
    let (_, next) = st(2, 9, 6, 7).make_move(m, 5);
    assert_eq!(next, NextGameState::End(EndState::P1Energy(st(2, 9, 6, 7))));
    let (_, next) = st(2, 7, 6, 7).make_move(m, 5);
    assert_eq!(next, NextGameState::End(EndState::EnergyTie(st(2, 7, 6, 7))));
}

#[test]
fn turn_limit_ignores_moves() {
    let s = st(3, 200, 4, 100);
    let (turn, next) = s.make_move(mv(MoveKind::Lunge, 150, MoveKind::Stand, 0), MAX_TURNS);
    assert_eq!(turn.state, s);
    assert_eq!(next, NextGameState::End(EndState::P1Turns(s)));
    let s = st(3, 100, 4, 200);
    let (_, next) = s.make_move(mv(MoveKind::Back, 50, MoveKind::Forward, 20), MAX_TURNS);
    assert_eq!(next, NextGameState::End(EndState::P2Turns(s)));
}

#[test]
fn mirrored_turn_gives_mirrored_result() {
    let (_, a) = st(2, 50, 5, 70).make_move(mv(MoveKind::Lunge, 3, MoveKind::Back, 1), 1);
    let (_, b) = st(4, 70, 7, 50).make_move(mv(MoveKind::Back, 1, MoveKind::Lunge, 3), 1);
    assert_eq!(a, NextGameState::Active(st(4, 47, 6, 69)));
    assert_eq!(b, NextGameState::Active(st(3, 69, 5, 47)));

    let (_, a) = st(7, 100, 9, 100).make_move(mv(MoveKind::Lunge, 1, MoveKind::Stand, 0), 1);
    let (_, b) = st(0, 100, 2, 100).make_move(mv(MoveKind::Stand, 0, MoveKind::Lunge, 1), 1);
    assert_eq!(a, NextGameState::End(EndState::P1Pin(st(9, 99, 9, 100))));
    assert_eq!(b, NextGameState::End(EndState::P2Pin(st(0, 100, 0, 99))));
}

#[test]
fn decision_state_of_start() {
    let d = start().decision_state();
    assert_eq!(
        d,
        DecisionState {
            p1_dist_from_wall: 1,
            p2_dist_from_wall: 1,
            separation_dist: 6,
            p1_energy: 30000,
            p2_energy: 30000,
        }
    );
    assert_eq!(d.p1_dist_from_wall + d.p2_dist_from_wall + d.separation_dist + 2, GAME_FIELD_SIZE);
    assert!(d.validate());
    let d = st(0, 1, 9, 2).decision_state();
    assert_eq!((d.p1_dist_from_wall, d.p2_dist_from_wall, d.separation_dist), (0, 0, 8));
    assert!(d.validate());
}

#[test]
fn decision_state_validation() {
    let bad = DecisionState {
        p1_dist_from_wall: 1,
        p2_dist_from_wall: 1,
        separation_dist: 8,
        p1_energy: 1,
        p2_energy: 1,
    };
    assert!(!bad.validate());
    let no_energy = DecisionState {
        p1_dist_from_wall: 1,
        p2_dist_from_wall: 1,
        separation_dist: 6,
        p1_energy: 0,
        p2_energy: 1,
    };
    assert!(!no_energy.validate());
}

#[test]
fn active_state_validation() {
    assert!(start().validate());
    assert!(st(0, 1, 9, START_ENERGY).validate());
    assert!(!st(4, 10, 4, 10).validate());
    assert!(!st(5, 10, 4, 10).validate());
    assert!(!st(-1, 10, 4, 10).validate());
    assert!(!st(1, 10, 10, 10).validate());
    assert!(!st(1, 0, 4, 10).validate());
    assert!(!st(1, 10, 4, START_ENERGY + 1).validate());
}

#[test]
fn end_state_validation() {
    assert!(EndState::P1Pin(st(9, 5, 9, 5)).validate());
    assert!(EndState::P1Victory(st(5, 0, 4, 5)).validate());
    assert!(!EndState::P2Pin(st(-1, 5, 0, 5)).validate());
    assert!(!EndState::TurnTie(st(1, START_ENERGY + 1, 4, 5)).validate());
    assert!(!NextGameState::End(EndState::P1Victory(st(10, 5, 4, 5))).validate());
    assert!(!NextGameState::Active(st(4, 5, 4, 5)).validate());
    assert!(NextGameState::End(EndState::P1Victory(st(4, 5, 4, 5))).validate());
}

#[test]
fn every_end_state_is_described() {
    let s = st(2, 3, 4, 5);
    let cases = [
        (EndState::P1Victory(s), "player-1", Some(Player::P1), "victory"),
        (EndState::P2Victory(s), "player-2", Some(Player::P2), "victory"),
        (EndState::P1Pin(s), "player-1", Some(Player::P1), "opponent-pinned"),
        (EndState::P2Pin(s), "player-2", Some(Player::P2), "opponent-pinned"),
        (EndState::P1Survive(s), "player-1", Some(Player::P1), "oponent-out-of-energy"),
        (EndState::P2Survive(s), "player-2", Some(Player::P2), "opponent-out-of-energy"),
        (EndState::P1Energy(s), "player-1", Some(Player::P1), "more-energy"),
        (EndState::P2Energy(s), "player-2", Some(Player::P2), "more-energy"),
        (EndState::EnergyTie(s), "tie", None, "out-of-energy"),
        (EndState::P1Turns(s), "player-1", Some(Player::P1), "more-energy(out-of-turns)"),
        (EndState::P2Turns(s), "player-2", Some(Player::P2), "more-energy(out-of-turns)"),
        (EndState::TurnTie(s), "tie", None, "out-of-turns"),
    ];
    for (e, winner, victor, why) in cases {
        assert_eq!(e.inner_state(), s);
        assert_eq!(e.winner(), winner);
        assert_eq!(e.victor(), victor);
        assert_eq!(e.explain(), why);
        assert_eq!(e.winner(), e.winner());
    }
}

#[test]
fn move_kind_names() {
    assert_eq!(MoveKind::Back.as_str(), "back");
    assert_eq!(MoveKind::Stand.as_str(), "stand");
    assert_eq!(MoveKind::Forward.as_str(), "forward");
    assert_eq!(MoveKind::Lunge.as_str(), "lunge");
    assert_eq!(MoveKind::NoEnergy.as_str(), "empty");
}

#[test]
fn classification() {
    assert_eq!(Separation::classify(0), Separation::S0);
    assert_eq!(Separation::classify(3), Separation::S3);
    assert_eq!(Separation::classify(4), Separation::SG);
    assert_eq!(Separation::classify(8), Separation::SG);
    assert_eq!(WallOrientation::classify(0), WallOrientation::Against);
    assert_eq!(WallOrientation::classify(2), WallOrientation::NotAgainst);
}

#[test]
fn rule_table_entries() {
    assert_eq!(go(Separation::SG, Lunge, Lunge, NotAgainst, NotAgainst), Transition::ActiveNaiveMove);
    assert_eq!(go(Separation::S3, Lunge, Lunge, NotAgainst, NotAgainst), Transition::ActiveBounce);
    assert_eq!(go(Separation::S0, Forward, Back, NotAgainst, NotAgainst), Transition::ActiveNaiveMove);
    assert_eq!(go(Separation::S0, Forward, Back, NotAgainst, Against), Transition::EndP1Pin);
    assert_eq!(go(Separation::S0, Lunge, Back, NotAgainst, NotAgainst), Transition::ActiveP1Push);
    assert_eq!(go(Separation::S0, Back, Lunge, NotAgainst, NotAgainst), Transition::ActiveP2Push);
    assert_eq!(go(Separation::S1, Back, Lunge, NotAgainst, NotAgainst), Transition::ActiveNaiveMove);
    assert_eq!(go(Separation::S0, Stand, Lunge, NotAgainst, NotAgainst), Transition::EndP2Victory);
    assert_eq!(go(Separation::S0, Back, Forward, Against, NotAgainst), Transition::EndP2Pin);
    assert_eq!(go(Separation::S2, Stand, NoEnergy, Against, Against), Transition::EndP1Survive);
    assert_eq!(go(Separation::S2, NoEnergy, Stand, Against, Against), Transition::EndP2Survive);
    assert_eq!(go(Separation::S2, NoEnergy, NoEnergy, Against, Against), Transition::EndEnergy);
}
