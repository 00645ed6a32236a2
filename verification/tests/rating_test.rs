use chess_rating::{GameOutcome, RatingConfig, RatingFormula, RatingService};

/// The standard Elo update of a decisive game: the winner gains
/// `k * (1 - expected)`, rounded, and the loser loses as much.
fn elo_update(winner: u32, loser: u32, k_factor: u32) -> (u32, u32) {
    let expected = 1.0 / (1.0 + 10_f64.powf((loser as f64 - winner as f64) / 400.0));
    let delta = (k_factor as f64 * (1.0 - expected)).round();
    let new_winner = (winner as f64 + delta).max(0.0) as u32;
    let new_loser = (loser as f64 - delta).max(0.0) as u32;
    (new_winner, new_loser)
}

/// White's rounded change after a draw: `k * (0.5 - expected_white)`.
fn draw_delta(white: i32, black: i32, k_factor: u32) -> i64 {
    let exponent = (black as f64 - white as f64) / 400.0;
    let expected_white = 1.0 / (1.0 + 10_f64.powf(exponent));
    (k_factor as f64 * (0.5 - expected_white)).round() as i64
}

fn rating_changes(white: i32, black: i32, outcome: GameOutcome, config: &RatingConfig) -> (i32, i32) {
    let result = match RatingService::rating_formula(white, black, outcome, config) {
        RatingFormula::Decisive { winner_rating, loser_rating, k_factor } => {
            elo_update(winner_rating, loser_rating, k_factor)
        }
        RatingFormula::Draw { white_rating, black_rating, k_factor } => {
            RatingService::calculate_draw_ratings(
                white_rating,
                black_rating,
                draw_delta(white_rating, black_rating, k_factor),
            )
        }
    };
    RatingService::calculate_rating_changes(outcome, result, config)
}

#[test]
fn test_calculate_rating_changes_white_wins() {
    let config = RatingConfig::default();
    let (new_white, new_black) = rating_changes(1500, 1500, GameOutcome::Win, &config);
    assert!(new_white > 1500);
    assert!(new_black < 1500);
    assert_eq!(new_white - 1500, 1500 - new_black);
}

#[test]
fn test_calculate_rating_changes_draw() {
    let config = RatingConfig::default();
    let (new_white, new_black) = rating_changes(1600, 1400, GameOutcome::Draw, &config);
    assert!(new_white < 1600);
    assert!(new_black > 1400);
}

#[test]
fn test_rating_bounds() {
    let config = RatingConfig { k_factor: 32, min_rating: 100, max_rating: 2000 };
    let (new_white, new_black) = rating_changes(50, 2500, GameOutcome::Win, &config);
    assert!(new_white >= config.min_rating);
    assert!(new_white <= config.max_rating);
    assert!(new_black >= config.min_rating);
    assert!(new_black <= config.max_rating);
}

#[test]
fn test_upset_victory_large_rating_change() {
    let config = RatingConfig::default();
    let (new_white, new_black) = rating_changes(1200, 1800, GameOutcome::Win, &config);
    let white_gain = new_white - 1200;
    let black_loss = 1800 - new_black;
    assert!(white_gain > 20);
    assert!(black_loss > 20);
    assert_eq!(white_gain, black_loss);
}

#[test]
fn test_rating_config_defaults() {
    let config = RatingConfig::default();
    assert_eq!(config.k_factor, 32);
    assert_eq!(config.min_rating, 100);
    assert_eq!(config.max_rating, 3000);
}

#[test]
fn test_rating_bounds_enforcement() {
    let config = RatingConfig { k_factor: 32, min_rating: 800, max_rating: 2400 };
    assert!(config.min_rating <= config.max_rating);
    assert!(config.k_factor > 0);
}

#[test]
fn rating_formula_puts_the_winner_first() {
    let config = RatingConfig::default();
    assert_eq!(
        RatingService::rating_formula(1200, 1800, GameOutcome::Win, &config),
        RatingFormula::Decisive { winner_rating: 1200, loser_rating: 1800, k_factor: 32 }
    );
    assert_eq!(
        RatingService::rating_formula(1200, 1800, GameOutcome::Loss, &config),
        RatingFormula::Decisive { winner_rating: 1800, loser_rating: 1200, k_factor: 32 }
    );
    assert_eq!(
        RatingService::rating_formula(1200, 1800, GameOutcome::Draw, &config),
        RatingFormula::Draw { white_rating: 1200, black_rating: 1800, k_factor: 32 }
    );
}

#[test]
fn negative_ratings_reach_the_formula_as_u32_reinterpretations() {
    let config = RatingConfig::default();
    assert_eq!(
        RatingService::rating_formula(-1, 5, GameOutcome::Win, &config),
        RatingFormula::Decisive { winner_rating: u32::MAX, loser_rating: 5, k_factor: 32 }
    );
}

#[test]
fn loss_swaps_the_formula_result_into_white_black_order() {
    let config = RatingConfig::default();
    assert_eq!(RatingService::calculate_rating_changes(GameOutcome::Win, (1516, 1484), &config), (1516, 1484));
    assert_eq!(RatingService::calculate_rating_changes(GameOutcome::Loss, (1516, 1484), &config), (1484, 1516));
    assert_eq!(RatingService::calculate_rating_changes(GameOutcome::Draw, (1492, 1508), &config), (1492, 1508));
}

#[test]
fn rating_changes_clamp_to_the_bounds() {
    let config = RatingConfig { k_factor: 32, min_rating: 100, max_rating: 2000 };
    assert_eq!(RatingService::calculate_rating_changes(GameOutcome::Win, (82, 2468), &config), (100, 2000));
    // A result above i32::MAX reads as a negative rating, which clamps to the minimum.
    assert_eq!(
        RatingService::calculate_rating_changes(GameOutcome::Win, (u32::MAX, 1000), &config),
        (100, 1000)
    );
}

#[test]
fn colour_symmetry_of_decisive_games() {
    let config = RatingConfig::default();
    let lost = RatingService::calculate_rating_changes(GameOutcome::Loss, (1531, 1169), &config);
    let won = RatingService::calculate_rating_changes(GameOutcome::Win, (1531, 1169), &config);
    assert_eq!(lost, (won.1, won.0));
}

#[test]
fn draw_ratings_are_zero_sum() {
    let (white, black) = RatingService::calculate_draw_ratings(1600, 1400, -8);
    assert_eq!((white, black), (1592, 1408));
    assert_eq!(white as i64 - 1600, -(black as i64 - 1400));
}

#[test]
fn draw_ratings_never_drop_below_zero_and_saturate() {
    assert_eq!(RatingService::calculate_draw_ratings(5, 10, -16), (0, 26));
    assert_eq!(RatingService::calculate_draw_ratings(i32::MAX, 0, i64::MAX), (u32::MAX, 0));
    assert_eq!(RatingService::calculate_draw_ratings(0, 0, i64::MIN), (0, u32::MAX));
}

#[test]
fn clamped_rating_stays_within_bounds() {
    let config = RatingConfig::default();
    assert_eq!(RatingService::clamped_rating(50, &config), 100);
    assert_eq!(RatingService::clamped_rating(1500, &config), 1500);
    assert_eq!(RatingService::clamped_rating(4000, &config), 3000);
}
