use vstd::prelude::*;

verus! {

/// The rating a new player starts with.
pub const INITIAL_ELO_RATING: i32 = 1200;

/// Service for Elo rating calculations after a game is completed.
pub struct RatingService;

/// The outcome of a game from one player's perspective.
#[derive(Debug, Clone, Copy, PartialEq, Eq, Structural)]
pub enum GameOutcome {
    Win,
    Loss,
    Draw,
}

/// Configuration of the Elo rating calculation.
#[derive(Debug, Clone)]
pub struct RatingConfig {
    /// K-factor of the rating update (typically 32 for new players, 16 for experienced ones).
    pub k_factor: u32,
    /// Lowest rating a player can be given.
    pub min_rating: i32,
    /// Highest rating a player can be given.
    pub max_rating: i32,
}

impl Default for RatingConfig {
    fn default() -> (config: Self)
        ensures
            config.k_factor == 32,
            config.min_rating == 100,
            config.max_rating == 3000,
    {
        RatingConfig { k_factor: 32, min_rating: 100, max_rating: 3000 }
    }
}

impl RatingConfig {
    /// The bounds can be applied: `i32::clamp` refuses a lower bound above the upper one.
    pub open spec fn bounds_ordered(&self) -> bool {
        self.min_rating <= self.max_rating
    }

    /// `rating` lies within the configured bounds.
    pub open spec fn admits(&self, rating: int) -> bool {
        self.min_rating <= rating <= self.max_rating
    }
}

/// `v` brought into `[lo, hi]`, as `i32::clamp` does for `lo <= hi`.
pub open spec fn clamp_spec(v: int, lo: int, hi: int) -> int {
    if v < lo {
        lo
    } else if v > hi {
        hi
    } else {
        v
    }
}

/// The value of `x as i32` for a `u32` (two's-complement reinterpretation).
pub open spec fn u32_as_i32(x: u32) -> int {
    if x <= 0x7fff_ffff {
        x as int
    } else {
        x - 0x1_0000_0000
    }
}

/// The value of `x as u32` for an `i32` (two's-complement reinterpretation).
pub open spec fn i32_as_u32(x: i32) -> int {
    if x >= 0 {
        x as int
    } else {
        x + 0x1_0000_0000
    }
}

/// The value of a float-to-`u32` cast of the integer `v`: saturating at both ends.
pub open spec fn saturate_u32(v: int) -> int {
    if v < 0 {
        0
    } else if v > u32::MAX {
        u32::MAX as int
    } else {
        v
    }
}

/// The rating after a draw: the old rating moved by `delta`, never below zero.
pub open spec fn draw_rating(rating: int, delta: int) -> int {
    saturate_u32(if rating + delta < 0 { 0 } else { rating + delta })
}

/// What the Elo formula has to be evaluated on for a finished game.
#[derive(Debug, Clone, Copy, PartialEq, Eq, Structural)]
pub enum RatingFormula {
    /// The winner/loser update: the new ratings of `(winner, loser)`.
    Decisive { winner_rating: u32, loser_rating: u32, k_factor: u32 },
    /// The expected-score update of a draw, from white's side.
    Draw { white_rating: i32, black_rating: i32, k_factor: u32 },
}

/// The formula to evaluate for a game that white finished with `white_outcome`.
pub open spec fn rating_formula_spec(
    white_rating: i32,
    black_rating: i32,
    white_outcome: GameOutcome,
    k_factor: u32,
) -> RatingFormula {
    match white_outcome {
        GameOutcome::Win => RatingFormula::Decisive {
            winner_rating: i32_as_u32(white_rating) as u32,
            loser_rating: i32_as_u32(black_rating) as u32,
            k_factor,
        },
        GameOutcome::Loss => RatingFormula::Decisive {
            winner_rating: i32_as_u32(black_rating) as u32,
            loser_rating: i32_as_u32(white_rating) as u32,
            k_factor,
        },
        GameOutcome::Draw => RatingFormula::Draw { white_rating, black_rating, k_factor },
    }
}

/// The formula's result put in `(white, black)` order: a decisive formula answers in
/// `(winner, loser)` order.
pub open spec fn white_black_order(white_outcome: GameOutcome, result: (u32, u32)) -> (u32, u32) {
    match white_outcome {
        GameOutcome::Loss => (result.1, result.0),
        _ => result,
    }
}

/// The stored ratings for the formula's result: reinterpreted as `i32` and clamped.
pub open spec fn rating_changes_spec(
    white_outcome: GameOutcome,
    result: (u32, u32),
    config: RatingConfig,
) -> (int, int) {
    let ordered = white_black_order(white_outcome, result);
    (
        clamp_spec(u32_as_i32(ordered.0), config.min_rating as int, config.max_rating as int),
        clamp_spec(u32_as_i32(ordered.1), config.min_rating as int, config.max_rating as int),
    )
}

fn wrap_i32_to_u32(x: i32) -> (r: u32)
    ensures
        r == i32_as_u32(x),
{
    if x >= 0 {
        x as u32
    } else {
        ((x - i32::MIN) as u32) + 0x8000_0000u32
    }
}

fn wrap_u32_to_i32(x: u32) -> (r: i32)
    ensures
        r == u32_as_i32(x),
{
    if x <= 0x7fff_ffff {
        x as i32
    } else {
        ((x - 0x8000_0000u32) as i32) + i32::MIN
    }
}

fn clamp_i32(v: i32, lo: i32, hi: i32) -> (r: i32)
    requires
        lo <= hi,
    ensures
        r == clamp_spec(v as int, lo as int, hi as int),
{
    if v < lo {
        lo
    } else if v > hi {
        hi
    } else {
        v
    }
}

impl RatingService {
    /// The Elo formula to evaluate for a game that white finished with `white_outcome`:
    /// a decisive game asks for the winner/loser update with the winner first, a draw
    /// for the expected-score update.
    pub fn rating_formula(
        white_rating: i32,
        black_rating: i32,
        white_outcome: GameOutcome,
        config: &RatingConfig,
    ) -> (formula: RatingFormula)
        ensures
            formula == rating_formula_spec(white_rating, black_rating, white_outcome, config.k_factor),
            match formula {
                RatingFormula::Decisive { k_factor, .. } => k_factor == config.k_factor,
                RatingFormula::Draw { k_factor, .. } => k_factor == config.k_factor,
            },
            white_outcome == GameOutcome::Draw ==> formula == (RatingFormula::Draw {
                white_rating,
                black_rating,
                k_factor: config.k_factor,
            }),
            white_outcome == GameOutcome::Win ==> (formula matches RatingFormula::Decisive {
                winner_rating,
                loser_rating,
                ..
            } && winner_rating == i32_as_u32(white_rating) && loser_rating == i32_as_u32(
                black_rating,
            )),
            white_outcome == GameOutcome::Loss ==> (formula matches RatingFormula::Decisive {
                winner_rating,
                loser_rating,
                ..
            } && winner_rating == i32_as_u32(black_rating) && loser_rating == i32_as_u32(
                white_rating,
            )),
    {
        match white_outcome {
            GameOutcome::Win => RatingFormula::Decisive {
                winner_rating: wrap_i32_to_u32(white_rating),
                loser_rating: wrap_i32_to_u32(black_rating),
                k_factor: config.k_factor,
            },
            GameOutcome::Loss => RatingFormula::Decisive {
                winner_rating: wrap_i32_to_u32(black_rating),
                loser_rating: wrap_i32_to_u32(white_rating),
                k_factor: config.k_factor,
            },
            GameOutcome::Draw => RatingFormula::Draw {
                white_rating,
                black_rating,
                k_factor: config.k_factor,
            },
        }
    }

    /// The new `(white, black)` ratings from what the formula of
    /// [`RatingService::rating_formula`] returned: put in white/black order, read as
    /// `i32` and clamped to the configured bounds.
    pub fn calculate_rating_changes(
        white_outcome: GameOutcome,
        formula_result: (u32, u32),
        config: &RatingConfig,
    ) -> (ratings: (i32, i32))
        requires
            config.bounds_ordered(),
        ensures
            (ratings.0 as int, ratings.1 as int) == rating_changes_spec(
                white_outcome,
                formula_result,
                *config,
            ),
            config.admits(ratings.0 as int),
            config.admits(ratings.1 as int),
            ({
                let (for_white, for_black) = if white_outcome == GameOutcome::Loss {
                    (formula_result.1, formula_result.0)
                } else {
                    formula_result
                };
                &&& ratings.0 == clamp_spec(
                    u32_as_i32(for_white),
                    config.min_rating as int,
                    config.max_rating as int,
                )
                &&& ratings.1 == clamp_spec(
                    u32_as_i32(for_black),
                    config.min_rating as int,
                    config.max_rating as int,
                )
            }),
    {
        let (new_white, new_black) = match white_outcome {
            GameOutcome::Loss => (formula_result.1, formula_result.0),
            _ => formula_result,
        };
        let clamped_white = clamp_i32(wrap_u32_to_i32(new_white), config.min_rating, config.max_rating);
        let clamped_black = clamp_i32(wrap_u32_to_i32(new_black), config.min_rating, config.max_rating);
        (clamped_white, clamped_black)
    }

    /// The ratings after a draw. `white_delta` is white's rounded change,
    /// `k * (0.5 - expected_white)`; black's change is its negation (zero-sum). A
    /// rating never drops below zero.
    pub fn calculate_draw_ratings(white_rating: i32, black_rating: i32, white_delta: i64) -> (ratings: (
        u32,
        u32,
    ))
        ensures
            ratings.0 == draw_rating(white_rating as int, white_delta as int),
            ratings.1 == draw_rating(black_rating as int, -(white_delta as int)),
            0 <= white_rating + white_delta <= u32::MAX ==> ratings.0 == white_rating + white_delta,
            0 <= black_rating - white_delta <= u32::MAX ==> ratings.1 == black_rating - white_delta,
    {
        let new_white = Self::moved_rating(white_rating, white_delta as i128);
        let new_black = Self::moved_rating(black_rating, -(white_delta as i128));
        (new_white, new_black)
    }

    fn moved_rating(rating: i32, delta: i128) -> (r: u32)
        requires
            -0x8000_0000_0000_0000 <= delta <= 0x8000_0000_0000_0000,
        ensures
            r == draw_rating(rating as int, delta as int),
    {
        let moved = rating as i128 + delta;
        if moved < 0 {
            0
        } else if moved > u32::MAX as i128 {
            u32::MAX
        } else {
            moved as u32
        }
    }

    /// A rating set directly (by an administrator), clamped to the configured bounds.
    pub fn clamped_rating(new_rating: i32, config: &RatingConfig) -> (r: i32)
        requires
            config.bounds_ordered(),
        ensures
            r == clamp_spec(new_rating as int, config.min_rating as int, config.max_rating as int),
            config.admits(r as int),
    {
        clamp_i32(new_rating, config.min_rating, config.max_rating)
    }
}

} // verus!
