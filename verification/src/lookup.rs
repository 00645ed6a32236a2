use vstd::prelude::*;

use crate::failure::RatingFailure;
use crate::games::GameService;
use crate::rating::RatingService;
use crate::workflow::{GameRecord, PlayerRecord};

verus! {

impl RatingService {
    /// A player's current rating, from the lookup of the player.
    pub fn get_player_rating(lookup: Result<Option<PlayerRecord>, String>) -> (r: Result<
        i32,
        RatingFailure,
    >)
        ensures
            r == match lookup {
                Err(e) => Err(RatingFailure::PlayerFetchFailed(e)),
                Ok(None) => Err(RatingFailure::PlayerNotFound),
                Ok(Some(player)) => Ok::<i32, RatingFailure>(player.elo_rating),
            },
    {
        match lookup {
            Err(e) => Err(RatingFailure::PlayerFetchFailed(e)),
            Ok(None) => Err(RatingFailure::PlayerNotFound),
            Ok(Some(player)) => Ok(player.elo_rating),
        }
    }

    /// The answer to a direct rating update, from what the store reported on writing it.
    pub fn player_rating_written(written: Result<(), String>) -> (r: Result<(), RatingFailure>)
        ensures
            r == match written {
                Err(e) => Err(RatingFailure::PlayerWriteFailed(e)),
                Ok(()) => Ok::<(), RatingFailure>(()),
            },
    {
        match written {
            Err(e) => Err(RatingFailure::PlayerWriteFailed(e)),
            Ok(()) => Ok(()),
        }
    }
}

impl GameService {
    /// The player of a game whose rating is asked for: white's when `is_white`,
    /// black's otherwise, from the lookup of the game.
    pub fn get_player_rating_for_game(
        lookup: Result<Option<GameRecord>, String>,
        is_white: bool,
    ) -> (r: Result<u128, RatingFailure>)
        ensures
            r == match lookup {
                Err(e) => Err(RatingFailure::GameFetchFailed(e)),
                Ok(None) => Err(RatingFailure::GameNotFound),
                Ok(Some(game)) => Ok::<u128, RatingFailure>(
                    if is_white {
                        game.white_player
                    } else {
                        game.black_player
                    },
                ),
            },
    {
        match lookup {
            Err(e) => Err(RatingFailure::GameFetchFailed(e)),
            Ok(None) => Err(RatingFailure::GameNotFound),
            Ok(Some(game)) => {
                if is_white {
                    Ok(game.white_player)
                } else {
                    Ok(game.black_player)
                }
            },
        }
    }
}

} // verus!
