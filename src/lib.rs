//! Turn resolution for a two-player positional combat game on a one-dimensional field.

pub mod resolve;
pub mod state;
pub mod symmetry;
pub mod transition;

pub use state::{
    ActiveState, DecisionState, EndState, Game, Match, Move, MoveKind, MovePair, NextGameState,
    Player, PlayerState, Turn, GAMES_PER_MATCH, GAME_FIELD_SIZE, MAX_TURNS, P1_START_POS,
    P2_START_POS, START_ENERGY,
};
pub use transition::{go, Separation, Transition, WallOrientation};
