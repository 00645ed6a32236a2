use chess_rating::{
    ApiError, GameRecord, GameService, PlayerRecord, RatingConfig, RatingFailure, RatingFormula,
    RatingService, RatingWorkflow, ResultSide, StoreAction, StoreEvent,
};

const GAME: u128 = 10;
const WHITE: u128 = 1;
const BLACK: u128 = 2;

fn game(result: Option<ResultSide>) -> GameRecord {
    GameRecord { id: GAME, white_player: WHITE, black_player: BLACK, result }
}

/// A store holding one game and its two players, answering every action; the
/// formula is answered with a fixed pair. Returns every action and the result.
struct Store {
    game: Option<GameRecord>,
    white: Option<PlayerRecord>,
    black: Option<PlayerRecord>,
    formula: (u32, u32),
    fail_white_write: bool,
    fail_commit: bool,
}

impl Store {
    fn new(result: Option<ResultSide>) -> Store {
        Store {
            game: Some(game(result)),
            white: Some(PlayerRecord { id: WHITE, elo_rating: 1500 }),
            black: Some(PlayerRecord { id: BLACK, elo_rating: 1500 }),
            formula: (1516, 1484),
            fail_white_write: false,
            fail_commit: false,
        }
    }

    fn run(&mut self, start: (RatingWorkflow, StoreAction)) -> (Vec<String>, Result<(i32, i32), RatingFailure>) {
        let (mut workflow, mut action) = start;
        let mut log = Vec::new();
        let mut loaded_players = 0;
        loop {
            log.push(format!("{:?}", action));
            let event = match action {
                StoreAction::Finish(result) => return (log, result),
                StoreAction::BeginTransaction => StoreEvent::TransactionBegun(Ok(())),
                StoreAction::LoadGame(_) => StoreEvent::GameLoaded(Ok(self.game)),
                StoreAction::WriteGameResult(_, result) => {
                    if let Some(g) = self.game.as_mut() {
                        g.result = Some(result);
                    }
                    StoreEvent::GameResultWritten(Ok(()))
                }
                StoreAction::LoadPlayer(_) => {
                    loaded_players += 1;
                    StoreEvent::PlayerLoaded(Ok(if loaded_players == 1 { self.white } else { self.black }))
                }
                StoreAction::EvaluateFormula(_) => StoreEvent::FormulaEvaluated(self.formula.0, self.formula.1),
                StoreAction::WriteRating(id, _) => {
                    if id == WHITE && self.fail_white_write {
                        StoreEvent::RatingWritten(Err("disk full".to_string()))
                    } else {
                        StoreEvent::RatingWritten(Ok(()))
                    }
                }
                StoreAction::Commit => {
                    if self.fail_commit {
                        StoreEvent::Committed(Err("connection lost".to_string()))
                    } else {
                        StoreEvent::Committed(Ok(()))
                    }
                }
                StoreAction::Rollback => StoreEvent::RolledBack,
            };
            assert!(workflow.is_well_formed());
            assert!(workflow.can_step(&event));
            let (next, next_action) = workflow.step(event);
            workflow = next;
            action = next_action;
        }
    }
}

fn message(err: ApiError) -> String {
    match err {
        ApiError::DatabaseError(m) | ApiError::NotFound(m) | ApiError::BadRequest(m) | ApiError::NotImplemented(m) => m,
    }
}

#[test]
fn own_transaction_commits_after_both_writes() {
    let config = RatingConfig::default();
    let mut store = Store::new(Some(ResultSide::WhiteWins));
    let (log, result) = store.run(RatingService::update_ratings_after_game(GAME, &config));
    assert_eq!(result.unwrap(), (1516, 1484));
    assert_eq!(
        log,
        vec![
            "BeginTransaction",
            "LoadGame(10)",
            "LoadPlayer(1)",
            "LoadPlayer(2)",
            "EvaluateFormula(Decisive { winner_rating: 1500, loser_rating: 1500, k_factor: 32 })",
            "WriteRating(1, 1516)",
            "WriteRating(2, 1484)",
            "Commit",
            "Finish(Ok((1516, 1484)))",
        ]
    );
}

#[test]
fn black_win_asks_for_black_first_and_stores_in_colour_order() {
    let config = RatingConfig::default();
    let mut store = Store::new(Some(ResultSide::BlackWins));
    store.black = Some(PlayerRecord { id: BLACK, elo_rating: 1400 });
    let (log, result) = store.run(RatingService::update_ratings_in_transaction(GAME, &config));
    assert_eq!(log[3], "EvaluateFormula(Decisive { winner_rating: 1400, loser_rating: 1500, k_factor: 32 })");
    assert_eq!(result.unwrap(), (1484, 1516));
}

#[test]
fn in_transaction_update_neither_commits_nor_rolls_back() {
    let config = RatingConfig::default();
    let mut store = Store::new(Some(ResultSide::Draw));
    let (log, result) = store.run(RatingService::update_ratings_in_transaction(GAME, &config));
    assert!(result.is_ok());
    assert!(!log.iter().any(|a| a == "Commit" || a == "Rollback" || a == "BeginTransaction"));
    assert_eq!(log[3], "EvaluateFormula(Draw { white_rating: 1500, black_rating: 1500, k_factor: 32 })");
}

#[test]
fn abandoned_game_rolls_back_without_loading_players() {
    let config = RatingConfig::default();
    let mut store = Store::new(Some(ResultSide::Abandoned));
    let (log, result) = store.run(RatingService::update_ratings_after_game(GAME, &config));
    assert_eq!(log, vec!["BeginTransaction", "LoadGame(10)", "Rollback", "Finish(Err(GameAbandoned))"]);
    assert_eq!(message(result.unwrap_err().into_api_error()), "Ratings not updated for abandoned games");
}

#[test]
fn unfinished_and_ongoing_games_are_refused() {
    let config = RatingConfig::default();
    let (_, result) = Store::new(None).run(RatingService::update_ratings_in_transaction(GAME, &config));
    assert_eq!(message(result.unwrap_err().into_api_error()), "Game is not completed yet");
    let (_, result) = Store::new(Some(ResultSide::Ongoing)).run(RatingService::update_ratings_in_transaction(GAME, &config));
    assert_eq!(message(result.unwrap_err().into_api_error()), "Game is still ongoing");
}

#[test]
fn missing_records_are_reported() {
    let config = RatingConfig::default();
    let mut store = Store::new(Some(ResultSide::WhiteWins));
    store.game = None;
    let (_, result) = store.run(RatingService::update_ratings_in_transaction(GAME, &config));
    assert!(matches!(result.unwrap_err().into_api_error(), ApiError::NotFound(m) if m == "Game not found"));
    let mut store = Store::new(Some(ResultSide::WhiteWins));
    store.white = None;
    let (_, result) = store.run(RatingService::update_ratings_after_game(GAME, &config));
    assert!(matches!(result.unwrap_err().into_api_error(), ApiError::NotFound(m) if m == "White player not found"));
    let mut store = Store::new(Some(ResultSide::WhiteWins));
    store.black = None;
    let (log, result) = store.run(RatingService::update_ratings_after_game(GAME, &config));
    assert_eq!(log[log.len() - 2], "Rollback");
    assert!(matches!(result.unwrap_err().into_api_error(), ApiError::NotFound(m) if m == "Black player not found"));
}

#[test]
fn failed_write_rolls_back_and_failed_commit_is_reported() {
    let config = RatingConfig::default();
    let mut store = Store::new(Some(ResultSide::WhiteWins));
    store.fail_white_write = true;
    let (log, result) = store.run(RatingService::update_ratings_after_game(GAME, &config));
    assert!(!log.iter().any(|a| a == "Commit"));
    assert_eq!(log[log.len() - 2], "Rollback");
    assert_eq!(
        message(result.unwrap_err().into_api_error()),
        "Failed to update white player rating: disk full"
    );
    let mut store = Store::new(Some(ResultSide::WhiteWins));
    store.fail_commit = true;
    let (_, result) = store.run(RatingService::update_ratings_after_game(GAME, &config));
    assert_eq!(message(result.unwrap_err().into_api_error()), "Failed to commit transaction: connection lost");
}

#[test]
fn written_ratings_are_clamped() {
    let config = RatingConfig { k_factor: 32, min_rating: 100, max_rating: 2000 };
    let mut store = Store::new(Some(ResultSide::WhiteWins));
    store.formula = (2468, 82);
    let (log, result) = store.run(RatingService::update_ratings_in_transaction(GAME, &config));
    assert!(log.contains(&"WriteRating(1, 2000)".to_string()));
    assert!(log.contains(&"WriteRating(2, 100)".to_string()));
    assert_eq!(result.unwrap(), (2000, 100));
}

#[test]
fn complete_game_stores_result_then_rates() {
    let mut store = Store::new(None);
    let (log, result) = store.run(GameService::complete_game(GAME, ResultSide::WhiteWins, None));
    assert_eq!(result.unwrap(), (1516, 1484));
    assert_eq!(&log[..4], &["BeginTransaction", "LoadGame(10)", "WriteGameResult(10, WhiteWins)", "LoadGame(10)"]);
    assert_eq!(log[log.len() - 2], "Commit");
}

#[test]
fn complete_game_refuses_a_completed_game() {
    let mut store = Store::new(Some(ResultSide::Draw));
    let (log, result) = store.run(GameService::complete_game(GAME, ResultSide::WhiteWins, None));
    assert_eq!(log, vec!["BeginTransaction", "LoadGame(10)", "Rollback", "Finish(Err(GameAlreadyCompleted))"]);
    assert!(matches!(result.unwrap_err().into_api_error(), ApiError::BadRequest(m) if m == "Game is already completed"));
}

#[test]
fn complete_game_uses_given_config() {
    let config = RatingConfig { k_factor: 16, min_rating: 0, max_rating: 5000 };
    let (workflow, _) = GameService::complete_game(GAME, ResultSide::Draw, Some(config));
    assert_eq!(workflow.config.k_factor, 16);
    assert_eq!(workflow.config.max_rating, 5000);
    let (workflow, _) = GameService::complete_game(GAME, ResultSide::Draw, None);
    assert_eq!(workflow.config.k_factor, 32);
}

#[test]
fn step_refuses_unexpected_events() {
    let config = RatingConfig::default();
    let (workflow, _) = RatingService::update_ratings_after_game(GAME, &config);
    assert!(!workflow.can_step(&StoreEvent::RolledBack));
    assert!(workflow.can_step(&StoreEvent::TransactionBegun(Ok(()))));
    let (workflow, action) = workflow.step(StoreEvent::TransactionBegun(Err("refused".to_string())));
    assert!(!workflow.can_step(&StoreEvent::RolledBack));
    match action {
        StoreAction::Finish(Err(f)) => assert_eq!(message(f.into_api_error()), "Failed to start transaction: refused"),
        other => panic!("unexpected {:?}", other),
    }
}

#[test]
fn failure_messages() {
    let cases: Vec<(RatingFailure, &str)> = vec![
        (RatingFailure::GameFetchFailed("x".to_string()), "Failed to fetch game: x"),
        (RatingFailure::GameResultWriteFailed("x".to_string()), "Failed to update game result: x"),
        (RatingFailure::WhiteFetchFailed("x".to_string()), "Failed to fetch white player: x"),
        (RatingFailure::BlackFetchFailed("x".to_string()), "Failed to fetch black player: x"),
        (RatingFailure::BlackWriteFailed("x".to_string()), "Failed to update black player rating: x"),
        (RatingFailure::PlayerFetchFailed("x".to_string()), "Failed to fetch player: x"),
        (RatingFailure::PlayerNotFound, "Player not found"),
        (RatingFailure::PlayerWriteFailed("x".to_string()), "Failed to update player rating: x"),
    ];
    for (failure, expected) in cases {
        assert_eq!(message(failure.into_api_error()), expected);
    }
}

#[test]
fn single_lookups() {
    assert_eq!(RatingService::get_player_rating(Ok(Some(PlayerRecord { id: 3, elo_rating: 1234 }))).unwrap(), 1234);
    assert!(matches!(RatingService::get_player_rating(Ok(None)), Err(RatingFailure::PlayerNotFound)));
    assert!(matches!(RatingService::get_player_rating(Err("e".to_string())), Err(RatingFailure::PlayerFetchFailed(_))));
    assert!(RatingService::player_rating_written(Ok(())).is_ok());
    assert!(matches!(RatingService::player_rating_written(Err("e".to_string())), Err(RatingFailure::PlayerWriteFailed(_))));
    assert_eq!(GameService::get_player_rating_for_game(Ok(Some(game(None))), true).unwrap(), WHITE);
    assert_eq!(GameService::get_player_rating_for_game(Ok(Some(game(None))), false).unwrap(), BLACK);
    assert!(matches!(GameService::get_player_rating_for_game(Ok(None), true), Err(RatingFailure::GameNotFound)));
}

#[test]
fn formula_variant_is_reported() {
    let config = RatingConfig::default();
    assert!(matches!(
        RatingService::rating_formula(1, 2, chess_rating::GameOutcome::Draw, &config),
        RatingFormula::Draw { .. }
    ));
}

#[test]
fn success_reports_the_ratings_written_for_the_loaded_players() {
    let config = RatingConfig::default();
    let mut store = Store::new(None);
    store.formula = (1530, 1470);
    let (log, result) = store.run(GameService::complete_game(GAME, ResultSide::WhiteWins, None));
    let (white, black) = result.unwrap();
    let white_write = format!("WriteRating({}, {})", WHITE, white);
    let black_write = format!("WriteRating({}, {})", BLACK, black);
    let wi = log.iter().position(|a| *a == white_write).unwrap();
    let bi = log.iter().position(|a| *a == black_write).unwrap();
    assert!(wi < bi && bi < log.len() - 1);
    assert!(config.min_rating <= white && white <= config.max_rating);
}
