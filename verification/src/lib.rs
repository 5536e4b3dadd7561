//! A tetromino stacker engine: board geometry, rotation systems, piece
//! generation, delay curves and the game state machine that advances a game
//! through time.

pub mod pieces;
pub mod rotation;
pub mod durations;
pub mod delays;
pub mod controls;
pub mod rng;
pub mod generation;
pub mod game;
pub mod engine;
pub mod game_update;
pub mod game_building;

pub use controls::{Button, ButtonsState, Input};
pub use delays::{DelayCurve, DelayCurveExt, DelayParameters, DelayTable};
pub use durations::{ExtDuration, Factor, InGameTime, MILLISECOND};
pub use engine::update_fall_and_lock_delays;
pub use game::{
    Configuration, Game, GameEndCause, GameLimits, Notification, NotificationFeed, Phase,
    SoftDropRate, Stat, State, StateInitialization, UpdateGameError,
};
pub use game_building::GameBuilder;
pub use generation::{BalanceOutGen, RecencyGen, RerollGen, StdTetGen, StockGen};
pub use pieces::{
    Board, CoordAdd, Coordinate, HEIGHT, LOCK_OUT_HEIGHT, Line, Offset, Orientation, Piece,
    Tetromino, TileID, WIDTH,
};
pub use rng::GameRng;
pub use rotation::RotationSystem;
