//! Elo rating updates after finished chess games, the transactional workflow
//! that stores them, and keyset pagination of the game list.

pub mod codec;
pub mod cursor;
pub mod decimal;
pub mod error;
pub mod failure;
pub mod games;
pub mod laws;
pub mod lookup;
pub mod rating;
pub mod workflow;

pub use error::ApiError;
pub use failure::RatingFailure;
pub use games::{GameKey, GameRow, GameService, GameStatus, ListGamesQuery, ResultFilter};
pub use rating::{GameOutcome, RatingConfig, RatingFormula, RatingService, INITIAL_ELO_RATING};
pub use workflow::{
    GameRecord, PlayerRecord, RatingWorkflow, ResultSide, Stage, StoreAction, StoreEvent,
    WorkflowMode,
};
