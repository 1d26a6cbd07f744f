use vstd::prelude::*;

use crate::state::{
    ActiveState, EndState, MoveKind, MovePair, NextGameState, PlayerState, Turn, GAME_FIELD_SIZE,
    MAX_TURNS,
};
use crate::transition::{go, rule, Separation, Transition, WallOrientation};

verus! {

/// `x` held inside the field.
pub open spec fn clamp_cell(x: int) -> int {
    if x < 0 {
        0
    } else if x >= GAME_FIELD_SIZE {
        GAME_FIELD_SIZE - 1
    } else {
        x
    }
}

impl ActiveState {
    /// Each player moved by their move's step and charged its energy, with no regard
    /// to walls or to the other player.
    pub open spec fn naive(self, moves: MovePair) -> ActiveState {
        ActiveState {
            p1: PlayerState {
                pos: (self.p1.pos + moves.p1.kind.step()) as i32,
                energy: (self.p1.energy - moves.p1.energy_spent) as i32,
            },
            p2: PlayerState {
                pos: (self.p2.pos - moves.p2.kind.step()) as i32,
                energy: (self.p2.energy - moves.p2.energy_spent) as i32,
            },
        }
    }

    /// Both players where they were, energies charged.
    pub open spec fn held(self, moves: MovePair) -> ActiveState {
        ActiveState {
            p1: PlayerState { pos: self.p1.pos, energy: self.naive(moves).p1.energy },
            p2: PlayerState { pos: self.p2.pos, energy: self.naive(moves).p2.energy },
        }
    }

    /// The naive moves, each position held inside the field.
    pub open spec fn clamped(self, moves: MovePair) -> ActiveState {
        let n = self.naive(moves);
        ActiveState {
            p1: PlayerState { pos: clamp_cell(n.p1.pos as int) as i32, energy: n.p1.energy },
            p2: PlayerState { pos: clamp_cell(n.p2.pos as int) as i32, energy: n.p2.energy },
        }
    }

    /// Player one takes player two's cell and player two goes one further back.
    pub open spec fn pushed_by_p1(self, moves: MovePair) -> ActiveState {
        ActiveState {
            p1: PlayerState { pos: self.p2.pos, energy: self.naive(moves).p1.energy },
            p2: PlayerState { pos: (self.p2.pos + 1) as i32, energy: self.naive(moves).p2.energy },
        }
    }

    /// Player two takes player one's cell and player one goes one further back.
    pub open spec fn pushed_by_p2(self, moves: MovePair) -> ActiveState {
        ActiveState {
            p1: PlayerState { pos: (self.p1.pos - 1) as i32, energy: self.naive(moves).p1.energy },
            p2: PlayerState { pos: self.p1.pos, energy: self.naive(moves).p2.energy },
        }
    }

    /// Both players on `cell`, energies charged.
    pub open spec fn pinned_at(self, moves: MovePair, cell: int) -> ActiveState {
        ActiveState {
            p1: PlayerState { pos: cell as i32, energy: self.naive(moves).p1.energy },
            p2: PlayerState { pos: cell as i32, energy: self.naive(moves).p2.energy },
        }
    }

    /// The end decided by the energies left after the moves; positions held.
    pub open spec fn energy_end(self, moves: MovePair) -> EndState {
        let h = self.held(moves);
        if h.p1.energy > h.p2.energy {
            EndState::P1Energy(h)
        } else if h.p1.energy < h.p2.energy {
            EndState::P2Energy(h)
        } else {
            EndState::EnergyTie(h)
        }
    }

    /// The end at the turn limit: the larger energy before the moves wins, and the
    /// state is kept as it is.
    pub open spec fn turn_limit_end(self) -> EndState {
        if self.p1.energy > self.p2.energy {
            EndState::P1Turns(self)
        } else if self.p1.energy < self.p2.energy {
            EndState::P2Turns(self)
        } else {
            EndState::TurnTie(self)
        }
    }

    /// The rule table's entry for `self` and `moves`.
    pub open spec fn table_entry(self, moves: MovePair) -> Transition {
        let d = self.decision();
        rule(
            Separation::of(d.separation_dist as int),
            moves.p1.kind,
            moves.p2.kind,
            WallOrientation::of(d.p1_dist_from_wall as int),
            WallOrientation::of(d.p2_dist_from_wall as int),
        )
    }

    /// The state that category `t` makes of `self` under `moves`.
    pub open spec fn outcome(self, moves: MovePair, t: Transition) -> NextGameState {
        match t {
            Transition::ActiveNaiveMove => NextGameState::Active(self.naive(moves)),
            Transition::ActiveBounce => NextGameState::Active(self.held(moves)),
            Transition::ActiveP1Push => NextGameState::Active(self.pushed_by_p1(moves)),
            Transition::ActiveP2Push => NextGameState::Active(self.pushed_by_p2(moves)),
            Transition::ActiveWall => NextGameState::Active(self.clamped(moves)),
            Transition::EndP1Victory => NextGameState::End(EndState::P1Victory(self.naive(moves))),
            Transition::EndP2Victory => NextGameState::End(EndState::P2Victory(self.naive(moves))),
            Transition::EndP1Pin => NextGameState::End(
                EndState::P1Pin(self.pinned_at(moves, GAME_FIELD_SIZE - 1)),
            ),
            Transition::EndP2Pin => NextGameState::End(EndState::P2Pin(self.pinned_at(moves, 0))),
            Transition::EndP1Survive => NextGameState::End(EndState::P1Survive(self.held(moves))),
            Transition::EndP2Survive => NextGameState::End(EndState::P2Survive(self.held(moves))),
            Transition::EndEnergy => NextGameState::End(self.energy_end(moves)),
        }
    }

    /// What the turn numbered `turn_no` makes of `self` under `moves`.
    pub open spec fn next_state(self, moves: MovePair, turn_no: int) -> NextGameState {
        if turn_no == MAX_TURNS {
            NextGameState::End(self.turn_limit_end())
        } else {
            self.outcome(moves, self.table_entry(moves))
        }
    }

    /// Resolves one turn: records it, and gives the next live state or the end of the
    /// game.
    pub fn make_move(self, moves: MovePair, turn_no: i32) -> (r: (Turn, NextGameState))
        requires
            self.wf(),
            moves.affordable_from(self),
        ensures
            r.0 == (Turn { state: self, moves }),
            r.1 == self.next_state(moves, turn_no as int),
            r.1.wf(),
            turn_no == MAX_TURNS ==> (r.1 matches NextGameState::End(e) && e.inner() == self && (
            if self.p1.energy > self.p2.energy {
                e is P1Turns
            } else if self.p1.energy < self.p2.energy {
                e is P2Turns
            } else {
                e is TurnTie
            })),
    {
        let ds = self.decision_state();
        let sep = Separation::classify(ds.separation_dist);
        let p1_wall = WallOrientation::classify(ds.p1_dist_from_wall);
        let p2_wall = WallOrientation::classify(ds.p2_dist_from_wall);
        let turn = Turn { state: self, moves };

        if turn_no == MAX_TURNS {
            let end = if self.p1.energy > self.p2.energy {
                EndState::P1Turns(self)
            } else if self.p1.energy < self.p2.energy {
                EndState::P2Turns(self)
            } else {
                EndState::TurnTie(self)
            };
            return (turn, NextGameState::End(end));
        }

        let nm = self.naive_moves(moves);
        let held = ActiveState {
            p1: PlayerState { pos: self.p1.pos, energy: nm.p1.energy },
            p2: PlayerState { pos: self.p2.pos, energy: nm.p2.energy },
        };
        let next = match go(sep, moves.p1.kind, moves.p2.kind, p1_wall, p2_wall) {
            Transition::ActiveNaiveMove => NextGameState::Active(nm),
            Transition::ActiveBounce => NextGameState::Active(held),
            Transition::ActiveP1Push => NextGameState::Active(
                ActiveState {
                    p1: PlayerState { pos: self.p2.pos, energy: nm.p1.energy },
                    p2: PlayerState { pos: self.p2.pos + 1, energy: nm.p2.energy },
                },
            ),
            Transition::ActiveP2Push => NextGameState::Active(
                ActiveState {
                    p1: PlayerState { pos: self.p1.pos - 1, energy: nm.p1.energy },
                    p2: PlayerState { pos: self.p1.pos, energy: nm.p2.energy },
                },
            ),
            Transition::ActiveWall => NextGameState::Active(
                ActiveState {
                    p1: PlayerState { pos: clamp_to_field(nm.p1.pos), energy: nm.p1.energy },
                    p2: PlayerState { pos: clamp_to_field(nm.p2.pos), energy: nm.p2.energy },
                },
            ),
            Transition::EndP1Victory => NextGameState::End(EndState::P1Victory(nm)),
            Transition::EndP2Victory => NextGameState::End(EndState::P2Victory(nm)),
            Transition::EndP1Pin => NextGameState::End(
                EndState::P1Pin(
                    ActiveState {
                        p1: PlayerState { pos: GAME_FIELD_SIZE - 1, energy: nm.p1.energy },
                        p2: PlayerState { pos: GAME_FIELD_SIZE - 1, energy: nm.p2.energy },
                    },
                ),
            ),
            Transition::EndP2Pin => NextGameState::End(
                EndState::P2Pin(
                    ActiveState {
                        p1: PlayerState { pos: 0, energy: nm.p1.energy },
                        p2: PlayerState { pos: 0, energy: nm.p2.energy },
                    },
                ),
            ),
            Transition::EndP1Survive => NextGameState::End(EndState::P1Survive(held)),
            Transition::EndP2Survive => NextGameState::End(EndState::P2Survive(held)),
            Transition::EndEnergy => NextGameState::End(
                if nm.p1.energy > nm.p2.energy {
                    EndState::P1Energy(held)
                } else if nm.p1.energy < nm.p2.energy {
                    EndState::P2Energy(held)
                } else {
                    EndState::EnergyTie(held)
                },
            ),
        };
        proof {
            lemma_outcome_wf(self, moves);
        }
        (turn, next)
    }

    fn naive_moves(&self, moves: MovePair) -> (r: ActiveState)
        requires
            self.wf(),
            moves.affordable_from(*self),
        ensures
            r == self.naive(moves),
    {
        ActiveState {
            p1: PlayerState {
                pos: self.naive_adj_p1(moves.p1.kind),
                energy: self.p1.energy - moves.p1.energy_spent,
            },
            p2: PlayerState {
                pos: self.naive_adj_p2(moves.p2.kind),
                energy: self.p2.energy - moves.p2.energy_spent,
            },
        }
    }

    fn naive_adj_p1(&self, kind: MoveKind) -> (r: i32)
        requires
            self.wf(),
        ensures
            r == self.p1.pos + kind.step(),
    {
        match kind {
            MoveKind::Back => self.p1.pos - 1,
            MoveKind::Stand => self.p1.pos,
            MoveKind::Forward => self.p1.pos + 1,
            MoveKind::Lunge => self.p1.pos + 2,
            MoveKind::NoEnergy => self.p1.pos,
        }
    }

    fn naive_adj_p2(&self, kind: MoveKind) -> (r: i32)
        requires
            self.wf(),
        ensures
            r == self.p2.pos - kind.step(),
    {
        match kind {
            MoveKind::Back => self.p2.pos + 1,
            MoveKind::Stand => self.p2.pos,
            MoveKind::Forward => self.p2.pos - 1,
            MoveKind::Lunge => self.p2.pos - 2,
            MoveKind::NoEnergy => self.p2.pos,
        }
    }
}

fn clamp_to_field(x: i32) -> (r: i32)
    ensures
        r == clamp_cell(x as int),
{
    if x < 0 {
        0
    } else if x >= GAME_FIELD_SIZE {
        GAME_FIELD_SIZE - 1
    } else {
        x
    }
}

/// Whatever category the rule table picks, the state it yields meets the invariant
/// that fits it.
pub proof fn lemma_outcome_wf(s: ActiveState, moves: MovePair)
    requires
        s.wf(),
        moves.affordable_from(s),
    ensures
        s.outcome(moves, s.table_entry(moves)).wf(),
{
}

} // verus!
