use vstd::prelude::*;

use crate::state::MoveKind;

verus! {

/// Width of the open gap between the players, bucketed.
#[derive(Clone, Copy, Debug, PartialEq, Eq, Structural)]
pub enum Separation {
    S0,
    S1,
    S2,
    S3,
    SG,
}

/// Whether a player stands on the cell next to their own wall.
#[derive(Clone, Copy, Debug, PartialEq, Eq, Structural)]
pub enum WallOrientation {
    Against,
    NotAgainst,
}


/// The resolution category that the rule table assigns to a turn.
#[derive(Clone, Copy, Debug, PartialEq, Eq, Structural)]
pub enum Transition {
    ActiveNaiveMove,
    ActiveBounce,
    ActiveP1Push,
    ActiveP2Push,
    ActiveWall,
    EndP1Victory,
    EndP2Victory,
    EndP1Pin,
    EndP2Pin,
    EndP1Survive,
    EndP2Survive,
    EndEnergy,
}

impl Separation {
    /// The bucket of an open gap of `d` cells.
    pub open spec fn of(d: int) -> Separation {
        if d == 0 {
            Separation::S0
        } else if d == 1 {
            Separation::S1
        } else if d == 2 {
            Separation::S2
        } else if d == 3 {
            Separation::S3
        } else {
            Separation::SG
        }
    }

    /// The smallest gap in the bucket; exact below `SG`. Since no turn closes more than
    /// four cells, a gap of `SG` behaves as one of four.
    pub open spec fn gap(self) -> int {
        match self {
            Separation::S0 => 0,
            Separation::S1 => 1,
            Separation::S2 => 2,
            Separation::S3 => 3,
            Separation::SG => 4,
        }
    }

    pub fn classify(d: i32) -> (r: Separation)
        ensures
            r == Separation::of(d as int),
    {
        match d {
            0 => Separation::S0,
            1 => Separation::S1,
            2 => Separation::S2,
            3 => Separation::S3,
            _ => Separation::SG,
        }
    }
}

impl WallOrientation {
    /// The wall relation of a player `d` cells away from their own wall.
    pub open spec fn of(d: int) -> WallOrientation {
        if d > 0 {
            WallOrientation::NotAgainst
        } else {
            WallOrientation::Against
        }
    }

    pub fn classify(d: i32) -> (r: WallOrientation)
        ensures
            r == WallOrientation::of(d as int),
    {
        if d > 0 {
            WallOrientation::NotAgainst
        } else {
            WallOrientation::Against
        }
    }
}

/// A player backs into their own wall.
pub open spec fn bumps_wall(k: MoveKind, w: WallOrientation) -> bool {
    k is Back && w is Against
}

/// Cells a player actually advances towards the opponent: a move into the wall
/// leaves them where they are.
pub open spec fn advance(k: MoveKind, w: WallOrientation) -> int {
    if bumps_wall(k, w) {
        0
    } else {
        k.step()
    }
}

/// The rules of the game.
///
/// A player who declares `NoEnergy` loses unless both do, when energies decide.
/// Otherwise each player advances by their move (none when backing into their own
/// wall). If the advances do not close the gap, both moves are carried out, held at
/// the walls. If both players advance into each other, both are thrown back. If one
/// advances into the other, the other is pinned when against their wall; else the
/// mover takes the other's cell and pushes them one further when landing on it, and
/// wins when jumping past it.
pub open spec fn rule(
    sep: Separation,
    k1: MoveKind,
    k2: MoveKind,
    w1: WallOrientation,
    w2: WallOrientation,
) -> Transition {
    if k1 is NoEnergy && k2 is NoEnergy {
        Transition::EndEnergy
    } else if k2 is NoEnergy {
        Transition::EndP1Survive
    } else if k1 is NoEnergy {
        Transition::EndP2Survive
    } else {
        let a1 = advance(k1, w1);
        let a2 = advance(k2, w2);
        if a1 + a2 <= sep.gap() {
            if bumps_wall(k1, w1) || bumps_wall(k2, w2) {
                Transition::ActiveWall
            } else {
                Transition::ActiveNaiveMove
            }
        } else if a1 > 0 && a2 > 0 {
            Transition::ActiveBounce
        } else if a1 > 0 {
            if w2 is Against {
                Transition::EndP1Pin
            } else if a1 + a2 > sep.gap() + 1 {
                Transition::EndP1Victory
            } else {
                Transition::ActiveP1Push
            }
        } else {
            if w1 is Against {
                Transition::EndP2Pin
            } else if a1 + a2 > sep.gap() + 1 {
                Transition::EndP2Victory
            } else {
                Transition::ActiveP2Push
            }
        }
    }
}

fn advance_of(k: MoveKind, w: WallOrientation) -> (r: i8)
    ensures
        r == advance(k, w),
{
    match (k, w) {
        (MoveKind::Back, WallOrientation::Against) => 0,
        (MoveKind::Back, WallOrientation::NotAgainst) => -1,
        (MoveKind::Stand, _) => 0,
        (MoveKind::Forward, _) => 1,
        (MoveKind::Lunge, _) => 2,
        (MoveKind::NoEnergy, _) => 0,
    }
}

fn gap_of(sep: Separation) -> (r: i8)
    ensures
        r == sep.gap(),
{
    match sep {
        Separation::S0 => 0,
        Separation::S1 => 1,
        Separation::S2 => 2,
        Separation::S3 => 3,
        Separation::SG => 4,
    }
}

/// Looks up the rule table.
pub fn go(
    sep: Separation,
    k1: MoveKind,
    k2: MoveKind,
    w1: WallOrientation,
    w2: WallOrientation,
) -> (r: Transition)
    ensures
        r == rule(sep, k1, k2, w1, w2),
{
    match (k1, k2) {
        (MoveKind::NoEnergy, MoveKind::NoEnergy) => Transition::EndEnergy,
        (_, MoveKind::NoEnergy) => Transition::EndP1Survive,
        (MoveKind::NoEnergy, _) => Transition::EndP2Survive,
        _ => {
            let a1 = advance_of(k1, w1);
            let a2 = advance_of(k2, w2);
            let gap = gap_of(sep);
            let p1_bumps = k1 == MoveKind::Back && w1 == WallOrientation::Against;
            let p2_bumps = k2 == MoveKind::Back && w2 == WallOrientation::Against;
            if a1 + a2 <= gap {
                if p1_bumps || p2_bumps {
                    Transition::ActiveWall
                } else {
                    Transition::ActiveNaiveMove
                }
            } else if a1 > 0 && a2 > 0 {
                Transition::ActiveBounce
            } else if a1 > 0 {
                if w2 == WallOrientation::Against {
                    Transition::EndP1Pin
                } else if a1 + a2 > gap + 1 {
                    Transition::EndP1Victory
                } else {
                    Transition::ActiveP1Push
                }
            } else {
                if w1 == WallOrientation::Against {
                    Transition::EndP2Pin
                } else if a1 + a2 > gap + 1 {
                    Transition::EndP2Victory
                } else {
                    Transition::ActiveP2Push
                }
            }
        }
    }
}

} // verus!
