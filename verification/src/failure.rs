use vstd::prelude::*;
use vstd::string::StringExecFns;

use crate::error::ApiError;

verus! {

/// Why reading or storing ratings failed. A variant holding a `String` carries the
/// database's own description of the error.
#[derive(Debug, Clone)]
pub enum RatingFailure {
    BeginFailed(String),
    GameFetchFailed(String),
    GameNotFound,
    GameAlreadyCompleted,
    GameResultWriteFailed(String),
    GameNotCompleted,
    GameOngoing,
    GameAbandoned,
    WhiteFetchFailed(String),
    WhiteNotFound,
    BlackFetchFailed(String),
    BlackNotFound,
    WhiteWriteFailed(String),
    BlackWriteFailed(String),
    CommitFailed(String),
    PlayerFetchFailed(String),
    PlayerNotFound,
    PlayerWriteFailed(String),
}

/// `err` is the client-facing error for `failure`: its kind and its message.
pub open spec fn reports(err: ApiError, failure: RatingFailure) -> bool {
    match failure {
        RatingFailure::BeginFailed(e) => err matches ApiError::DatabaseError(m) && m@
            == "Failed to start transaction: "@ + e@,
        RatingFailure::GameFetchFailed(e) => err matches ApiError::DatabaseError(m) && m@
            == "Failed to fetch game: "@ + e@,
        RatingFailure::GameNotFound => err matches ApiError::NotFound(m) && m@ == "Game not found"@,
        RatingFailure::GameAlreadyCompleted => err matches ApiError::BadRequest(m) && m@
            == "Game is already completed"@,
        RatingFailure::GameResultWriteFailed(e) => err matches ApiError::DatabaseError(m) && m@
            == "Failed to update game result: "@ + e@,
        RatingFailure::GameNotCompleted => err matches ApiError::BadRequest(m) && m@
            == "Game is not completed yet"@,
        RatingFailure::GameOngoing => err matches ApiError::BadRequest(m) && m@
            == "Game is still ongoing"@,
        RatingFailure::GameAbandoned => err matches ApiError::BadRequest(m) && m@
            == "Ratings not updated for abandoned games"@,
        RatingFailure::WhiteFetchFailed(e) => err matches ApiError::DatabaseError(m) && m@
            == "Failed to fetch white player: "@ + e@,
        RatingFailure::WhiteNotFound => err matches ApiError::NotFound(m) && m@
            == "White player not found"@,
        RatingFailure::BlackFetchFailed(e) => err matches ApiError::DatabaseError(m) && m@
            == "Failed to fetch black player: "@ + e@,
        RatingFailure::BlackNotFound => err matches ApiError::NotFound(m) && m@
            == "Black player not found"@,
        RatingFailure::WhiteWriteFailed(e) => err matches ApiError::DatabaseError(m) && m@
            == "Failed to update white player rating: "@ + e@,
        RatingFailure::BlackWriteFailed(e) => err matches ApiError::DatabaseError(m) && m@
            == "Failed to update black player rating: "@ + e@,
        RatingFailure::CommitFailed(e) => err matches ApiError::DatabaseError(m) && m@
            == "Failed to commit transaction: "@ + e@,
        RatingFailure::PlayerFetchFailed(e) => err matches ApiError::DatabaseError(m) && m@
            == "Failed to fetch player: "@ + e@,
        RatingFailure::PlayerNotFound => err matches ApiError::NotFound(m) && m@
            == "Player not found"@,
        RatingFailure::PlayerWriteFailed(e) => err matches ApiError::DatabaseError(m) && m@
            == "Failed to update player rating: "@ + e@,
    }
}

fn with_detail(prefix: &str, detail: String) -> (msg: String)
    ensures
        msg@ == prefix@ + detail@,
{
    String::from_str(prefix).concat(detail.as_str())
}

impl RatingFailure {
    /// The error reported to the client for this failure.
    pub fn into_api_error(self) -> (err: ApiError)
        ensures
            reports(err, self),
    {
        match self {
            RatingFailure::BeginFailed(e) => ApiError::DatabaseError(
                with_detail("Failed to start transaction: ", e),
            ),
            RatingFailure::GameFetchFailed(e) => ApiError::DatabaseError(
                with_detail("Failed to fetch game: ", e),
            ),
            RatingFailure::GameNotFound => ApiError::NotFound(String::from_str("Game not found")),
            RatingFailure::GameAlreadyCompleted => ApiError::BadRequest(
                String::from_str("Game is already completed"),
            ),
            RatingFailure::GameResultWriteFailed(e) => ApiError::DatabaseError(
                with_detail("Failed to update game result: ", e),
            ),
            RatingFailure::GameNotCompleted => ApiError::BadRequest(
                String::from_str("Game is not completed yet"),
            ),
            RatingFailure::GameOngoing => ApiError::BadRequest(
                String::from_str("Game is still ongoing"),
            ),
            RatingFailure::GameAbandoned => ApiError::BadRequest(
                String::from_str("Ratings not updated for abandoned games"),
            ),
            RatingFailure::WhiteFetchFailed(e) => ApiError::DatabaseError(
                with_detail("Failed to fetch white player: ", e),
            ),
            RatingFailure::WhiteNotFound => ApiError::NotFound(
                String::from_str("White player not found"),
            ),
            RatingFailure::BlackFetchFailed(e) => ApiError::DatabaseError(
                with_detail("Failed to fetch black player: ", e),
            ),
            RatingFailure::BlackNotFound => ApiError::NotFound(
                String::from_str("Black player not found"),
            ),
            RatingFailure::WhiteWriteFailed(e) => ApiError::DatabaseError(
                with_detail("Failed to update white player rating: ", e),
            ),
            RatingFailure::BlackWriteFailed(e) => ApiError::DatabaseError(
                with_detail("Failed to update black player rating: ", e),
            ),
            RatingFailure::CommitFailed(e) => ApiError::DatabaseError(
                with_detail("Failed to commit transaction: ", e),
            ),
            RatingFailure::PlayerFetchFailed(e) => ApiError::DatabaseError(
                with_detail("Failed to fetch player: ", e),
            ),
            RatingFailure::PlayerNotFound => ApiError::NotFound(String::from_str("Player not found")),
            RatingFailure::PlayerWriteFailed(e) => ApiError::DatabaseError(
                with_detail("Failed to update player rating: ", e),
            ),
        }
    }
}

} // verus!
