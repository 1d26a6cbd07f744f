use vstd::prelude::*;

verus! {

pub const GAME_FIELD_SIZE: i32 = 10;
pub const P1_START_POS: i32 = 1;
pub const P2_START_POS: i32 = 8;
pub const START_ENERGY: i32 = 30000;
pub const GAMES_PER_MATCH: usize = 1;
pub const MAX_TURNS: i32 = 20;

#[derive(Clone, Copy, Debug, PartialEq, Eq, Structural)]
pub struct PlayerState {
    pub pos: i32,
    pub energy: i32,
}

/// A live snapshot of the game.
#[derive(Clone, Copy, Debug, PartialEq, Eq, Structural)]
pub struct ActiveState {
    pub p1: PlayerState,
    pub p2: PlayerState,
}

/// True when `x` is a cell of the field.
pub open spec fn on_field(x: int) -> bool {
    0 <= x < GAME_FIELD_SIZE
}

impl ActiveState {
    /// Invariant of a live state: both players on the field, player one strictly to the
    /// left of player two, and both energies in `(0, START_ENERGY]`.
    pub open spec fn wf(&self) -> bool {
        &&& on_field(self.p1.pos as int)
        &&& on_field(self.p2.pos as int)
        &&& self.p1.pos < self.p2.pos
        &&& 0 < self.p1.energy <= START_ENERGY
        &&& 0 < self.p2.energy <= START_ENERGY
    }

    /// Invariant of a state wrapped in a terminal outcome: both players on the field
    /// (possibly on the same cell) and no energy above `START_ENERGY`.
    pub open spec fn end_wf(&self) -> bool {
        &&& on_field(self.p1.pos as int)
        &&& on_field(self.p2.pos as int)
        &&& self.p1.energy <= START_ENERGY
        &&& self.p2.energy <= START_ENERGY
    }

    /// Reports whether the live-state invariant holds.
    pub fn validate(&self) -> (r: bool)
        ensures
            r == self.wf(),
    {
        let p1_on_field = 0 <= self.p1.pos && self.p1.pos < GAME_FIELD_SIZE;
        let p2_on_field = 0 <= self.p2.pos && self.p2.pos < GAME_FIELD_SIZE;
        let p1_energy_ok = 0 < self.p1.energy && self.p1.energy <= START_ENERGY;
        let p2_energy_ok = 0 < self.p2.energy && self.p2.energy <= START_ENERGY;
        p1_on_field && p2_on_field && self.p1.pos < self.p2.pos && p1_energy_ok && p2_energy_ok
    }
}


/// The twelve ways a game can end, each holding the state at the end.
#[derive(Clone, Copy, Debug, PartialEq, Eq, Structural)]
pub enum EndState {
    P1Victory(ActiveState),
    P2Victory(ActiveState),
    P1Pin(ActiveState),
    P2Pin(ActiveState),
    P1Survive(ActiveState),
    P2Survive(ActiveState),
    P1Energy(ActiveState),
    P2Energy(ActiveState),
    EnergyTie(ActiveState),
    P1Turns(ActiveState),
    P2Turns(ActiveState),
    TurnTie(ActiveState),
}

#[derive(Clone, Copy, Debug, PartialEq, Eq, Structural)]
pub enum MoveKind {
    Back,
    Stand,
    Forward,
    Lunge,
    NoEnergy,
}

#[derive(Clone, Copy, Debug, PartialEq, Eq, Structural)]
pub struct Move {
    pub kind: MoveKind,
    pub energy_spent: i32,
}

/// The two moves of one turn, chosen simultaneously.
#[derive(Clone, Copy, Debug, PartialEq, Eq, Structural)]
pub struct MovePair {
    pub p1: Move,
    pub p2: Move,
}

/// One resolved turn: the state before the moves, and the moves.
#[derive(Clone, Copy, Debug, PartialEq, Eq, Structural)]
pub struct Turn {
    pub state: ActiveState,
    pub moves: MovePair,
}

#[derive(Clone, Copy, Debug, PartialEq, Eq, Structural)]
pub enum NextGameState {
    Active(ActiveState),
    End(EndState),
}

#[derive(Clone, Copy, Debug, PartialEq, Eq, Structural)]
pub enum Player {
    P1,
    P2,
}

/// A played game: its turns in order and how it ended.
#[derive(Debug)]
pub struct Game {
    pub turns: Vec<Turn>,
    pub end: EndState,
}

/// A sequence of independent games.
#[derive(Debug)]
pub struct Match {
    pub games: Vec<Game>,
}

/// The distances that index the rule table, derived from a live state.
#[derive(Clone, Copy, Debug, PartialEq, Eq, Structural)]
pub struct DecisionState {
    pub p1_dist_from_wall: i32,
    pub p2_dist_from_wall: i32,
    pub separation_dist: i32,
    pub p1_energy: i32,
    pub p2_energy: i32,
}

impl MoveKind {
    /// How many cells the move carries a player towards the opponent (negative: away).
    pub open spec fn step(self) -> int {
        match self {
            MoveKind::Back => -1,
            MoveKind::Stand => 0,
            MoveKind::Forward => 1,
            MoveKind::Lunge => 2,
            MoveKind::NoEnergy => 0,
        }
    }

    pub fn as_str(&self) -> (r: &'static str)
        ensures
            r@ == match *self {
                MoveKind::Back => "back"@,
                MoveKind::Stand => "stand"@,
                MoveKind::Forward => "forward"@,
                MoveKind::Lunge => "lunge"@,
                MoveKind::NoEnergy => "empty"@,
            },
    {
        match self {
            MoveKind::Back => "back",
            MoveKind::Stand => "stand",
            MoveKind::Forward => "forward",
            MoveKind::Lunge => "lunge",
            MoveKind::NoEnergy => "empty",
        }
    }
}

impl Move {
    /// A move a player holding `energy` may make: a `NoEnergy` move spends nothing,
    /// any other spends a non-negative amount strictly below `energy`.
    pub open spec fn affordable(self, energy: int) -> bool {
        if self.kind is NoEnergy {
            self.energy_spent == 0
        } else {
            0 <= self.energy_spent < energy
        }
    }

    /// Reports whether a player holding `energy` may make this move.
    pub fn fits(&self, energy: i32) -> (r: bool)
        ensures
            r == self.affordable(energy as int),
    {
        match self.kind {
            MoveKind::NoEnergy => self.energy_spent == 0,
            _ => 0 <= self.energy_spent && self.energy_spent < energy,
        }
    }
}

impl MovePair {
    /// Both moves are affordable from `s`.
    pub open spec fn affordable_from(self, s: ActiveState) -> bool {
        &&& self.p1.affordable(s.p1.energy as int)
        &&& self.p2.affordable(s.p2.energy as int)
    }
}

impl DecisionState {
    /// The three distances leave out exactly the two occupied cells, and both
    /// energies are positive.
    pub open spec fn wf(&self) -> bool {
        &&& self.p1_dist_from_wall + self.p2_dist_from_wall + self.separation_dist + 2
            == GAME_FIELD_SIZE
        &&& self.p1_energy > 0
        &&& self.p2_energy > 0
    }

    /// Reports whether the distance sum and the energies are consistent.
    pub fn validate(&self) -> (r: bool)
        ensures
            r == self.wf(),
    {
        let sum: i64 = self.p1_dist_from_wall as i64 + self.p2_dist_from_wall as i64
            + self.separation_dist as i64 + 2;
        sum == GAME_FIELD_SIZE as i64 && self.p1_energy > 0 && self.p2_energy > 0
    }
}

impl ActiveState {
    /// The decision state of `self`, as the rule table reads it.
    pub open spec fn decision(self) -> DecisionState {
        DecisionState {
            p1_dist_from_wall: self.p1.pos,
            p2_dist_from_wall: (GAME_FIELD_SIZE - 1 - self.p2.pos) as i32,
            separation_dist: (self.p2.pos - self.p1.pos - 1) as i32,
            p1_energy: self.p1.energy,
            p2_energy: self.p2.energy,
        }
    }

    pub fn decision_state(&self) -> (r: DecisionState)
        requires
            self.wf(),
        ensures
            r == self.decision(),
            r.p1_dist_from_wall == self.p1.pos,
            r.p2_dist_from_wall == GAME_FIELD_SIZE - 1 - self.p2.pos,
            r.separation_dist == self.p2.pos - self.p1.pos - 1,
            r.wf(),
    {
        DecisionState {
            p1_dist_from_wall: self.p1.pos,
            p2_dist_from_wall: (GAME_FIELD_SIZE - 1) - self.p2.pos,
            separation_dist: self.p2.pos - self.p1.pos - 1,
            p1_energy: self.p1.energy,
            p2_energy: self.p2.energy,
        }
    }
}

impl EndState {
    /// The state held by the outcome.
    pub open spec fn inner(self) -> ActiveState {
        match self {
            EndState::P1Victory(s) => s,
            EndState::P2Victory(s) => s,
            EndState::P1Pin(s) => s,
            EndState::P2Pin(s) => s,
            EndState::P1Survive(s) => s,
            EndState::P2Survive(s) => s,
            EndState::P1Energy(s) => s,
            EndState::P2Energy(s) => s,
            EndState::EnergyTie(s) => s,
            EndState::P1Turns(s) => s,
            EndState::P2Turns(s) => s,
            EndState::TurnTie(s) => s,
        }
    }

    /// The side the outcome favours; `None` for the two ties.
    pub open spec fn winning_side(self) -> Option<Player> {
        match self {
            EndState::P1Victory(_) | EndState::P1Pin(_) | EndState::P1Survive(_)
            | EndState::P1Energy(_) | EndState::P1Turns(_) => Some(Player::P1),
            EndState::P2Victory(_) | EndState::P2Pin(_) | EndState::P2Survive(_)
            | EndState::P2Energy(_) | EndState::P2Turns(_) => Some(Player::P2),
            EndState::EnergyTie(_) | EndState::TurnTie(_) => None,
        }
    }

    pub open spec fn wf(self) -> bool {
        self.inner().end_wf()
    }

    /// Reports whether the terminal invariant holds of the held state.
    pub fn validate(&self) -> (r: bool)
        ensures
            r == self.wf(),
    {
        let s = self.inner_state();
        let p1_on_field = 0 <= s.p1.pos && s.p1.pos < GAME_FIELD_SIZE;
        let p2_on_field = 0 <= s.p2.pos && s.p2.pos < GAME_FIELD_SIZE;
        p1_on_field && p2_on_field && s.p1.energy <= START_ENERGY && s.p2.energy <= START_ENERGY
    }

    pub fn inner_state(&self) -> (r: ActiveState)
        ensures
            r == self.inner(),
    {
        match *self {
            EndState::P1Victory(s) => s,
            EndState::P2Victory(s) => s,
            EndState::P1Pin(s) => s,
            EndState::P2Pin(s) => s,
            EndState::P1Survive(s) => s,
            EndState::P2Survive(s) => s,
            EndState::P1Energy(s) => s,
            EndState::P2Energy(s) => s,
            EndState::EnergyTie(s) => s,
            EndState::P1Turns(s) => s,
            EndState::P2Turns(s) => s,
            EndState::TurnTie(s) => s,
        }
    }

    /// Label of the winner: `"player-1"`, `"player-2"` or `"tie"`.
    pub fn winner(&self) -> (r: &'static str)
        ensures
            r@ == match self.winning_side() {
                Some(Player::P1) => "player-1"@,
                Some(Player::P2) => "player-2"@,
                None => "tie"@,
            },
    {
        match *self {
            EndState::P1Victory(_) => "player-1",
            EndState::P2Victory(_) => "player-2",
            EndState::P1Pin(_) => "player-1",
            EndState::P2Pin(_) => "player-2",
            EndState::P1Survive(_) => "player-1",
            EndState::P2Survive(_) => "player-2",
            EndState::P1Energy(_) => "player-1",
            EndState::P2Energy(_) => "player-2",
            EndState::EnergyTie(_) => "tie",
            EndState::P1Turns(_) => "player-1",
            EndState::P2Turns(_) => "player-2",
            EndState::TurnTie(_) => "tie",
        }
    }

    pub fn victor(&self) -> (r: Option<Player>)
        ensures
            r == self.winning_side(),
    {
        match *self {
            EndState::P1Victory(_) => Some(Player::P1),
            EndState::P2Victory(_) => Some(Player::P2),
            EndState::P1Pin(_) => Some(Player::P1),
            EndState::P2Pin(_) => Some(Player::P2),
            EndState::P1Survive(_) => Some(Player::P1),
            EndState::P2Survive(_) => Some(Player::P2),
            EndState::P1Energy(_) => Some(Player::P1),
            EndState::P2Energy(_) => Some(Player::P2),
            EndState::EnergyTie(_) => None,
            EndState::P1Turns(_) => Some(Player::P1),
            EndState::P2Turns(_) => Some(Player::P2),
            EndState::TurnTie(_) => None,
        }
    }

    /// A short category for the cause of the end.
    pub fn explain(&self) -> (r: &'static str)
        ensures
            r@ == match *self {
                EndState::P1Victory(_) | EndState::P2Victory(_) => "victory"@,
                EndState::P1Pin(_) | EndState::P2Pin(_) => "opponent-pinned"@,
                EndState::P1Survive(_) => "oponent-out-of-energy"@,
                EndState::P2Survive(_) => "opponent-out-of-energy"@,
                EndState::P1Energy(_) | EndState::P2Energy(_) => "more-energy"@,
                EndState::EnergyTie(_) => "out-of-energy"@,
                EndState::P1Turns(_) | EndState::P2Turns(_) => "more-energy(out-of-turns)"@,
                EndState::TurnTie(_) => "out-of-turns"@,
            },
    {
        match *self {
            EndState::P1Victory(_) => "victory",
            EndState::P2Victory(_) => "victory",
            EndState::P1Pin(_) => "opponent-pinned",
            EndState::P2Pin(_) => "opponent-pinned",
            EndState::P1Survive(_) => "oponent-out-of-energy",
            EndState::P2Survive(_) => "opponent-out-of-energy",
            EndState::P1Energy(_) => "more-energy",
            EndState::P2Energy(_) => "more-energy",
            EndState::EnergyTie(_) => "out-of-energy",
            EndState::P1Turns(_) => "more-energy(out-of-turns)",
            EndState::P2Turns(_) => "more-energy(out-of-turns)",
            EndState::TurnTie(_) => "out-of-turns",
        }
    }
}

impl NextGameState {
    pub open spec fn wf(self) -> bool {
        match self {
            NextGameState::Active(s) => s.wf(),
            NextGameState::End(e) => e.wf(),
        }
    }

    /// Reports whether the live or terminal invariant, as fits the variant, holds.
    pub fn validate(&self) -> (r: bool)
        ensures
            r == self.wf(),
    {
        match self {
            NextGameState::Active(s) => s.validate(),
            NextGameState::End(e) => e.validate(),
        }
    }
}

} // verus!
