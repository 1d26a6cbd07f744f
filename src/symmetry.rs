use vstd::prelude::*;

use crate::state::{ActiveState, EndState, MovePair, NextGameState, PlayerState, GAME_FIELD_SIZE};

verus! {

impl ActiveState {
    /// The same position seen from the other side: the field reflected
    /// (`x` becomes `GAME_FIELD_SIZE - 1 - x`) and the players' roles exchanged.
    pub open spec fn mirror(self) -> ActiveState {
        ActiveState {
            p1: PlayerState {
                pos: (GAME_FIELD_SIZE - 1 - self.p2.pos) as i32,
                energy: self.p2.energy,
            },
            p2: PlayerState {
                pos: (GAME_FIELD_SIZE - 1 - self.p1.pos) as i32,
                energy: self.p1.energy,
            },
        }
    }
}

impl MovePair {
    /// Each player makes the move the other made.
    pub open spec fn swapped(self) -> MovePair {
        MovePair { p1: self.p2, p2: self.p1 }
    }
}

impl EndState {
    /// The outcome for the other side, on the mirrored state.
    pub open spec fn mirror(self) -> EndState {
        match self {
            EndState::P1Victory(s) => EndState::P2Victory(s.mirror()),
            EndState::P2Victory(s) => EndState::P1Victory(s.mirror()),
            EndState::P1Pin(s) => EndState::P2Pin(s.mirror()),
            EndState::P2Pin(s) => EndState::P1Pin(s.mirror()),
            EndState::P1Survive(s) => EndState::P2Survive(s.mirror()),
            EndState::P2Survive(s) => EndState::P1Survive(s.mirror()),
            EndState::P1Energy(s) => EndState::P2Energy(s.mirror()),
            EndState::P2Energy(s) => EndState::P1Energy(s.mirror()),
            EndState::EnergyTie(s) => EndState::EnergyTie(s.mirror()),
            EndState::P1Turns(s) => EndState::P2Turns(s.mirror()),
            EndState::P2Turns(s) => EndState::P1Turns(s.mirror()),
            EndState::TurnTie(s) => EndState::TurnTie(s.mirror()),
        }
    }
}

impl NextGameState {
    pub open spec fn mirror(self) -> NextGameState {
        match self {
            NextGameState::Active(s) => NextGameState::Active(s.mirror()),
            NextGameState::End(e) => NextGameState::End(e.mirror()),
        }
    }
}

/// The rules favour neither side: resolving the mirrored state with the moves
/// exchanged gives the mirror of the original resolution, with every outcome for one
/// player turned into the same outcome for the other.
pub proof fn lemma_mirror_symmetry(s: ActiveState, moves: MovePair, turn_no: int)
    requires
        s.wf(),
        moves.affordable_from(s),
    ensures
        s.mirror().wf(),
        moves.swapped().affordable_from(s.mirror()),
        s.mirror().next_state(moves.swapped(), turn_no) == s.next_state(moves, turn_no).mirror(),
{
}

} // verus!
