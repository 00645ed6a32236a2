use vstd::prelude::*;

use crate::failure::RatingFailure;
use crate::games::GameService;
use crate::rating::{
    rating_changes_spec, rating_formula_spec, GameOutcome, RatingConfig, RatingFormula,
    RatingService,
};

verus! {

/// The stored result of a game.
#[derive(Debug, Clone, Copy, PartialEq, Eq, Structural)]
pub enum ResultSide {
    WhiteWins,
    BlackWins,
    Draw,
    Ongoing,
    Abandoned,
}

/// What the rating logic reads of a stored game.
#[derive(Debug, Clone, Copy)]
pub struct GameRecord {
    pub id: u128,
    pub white_player: u128,
    pub black_player: u128,
    pub result: Option<ResultSide>,
}

/// What the rating logic reads of a stored player.
#[derive(Debug, Clone, Copy)]
pub struct PlayerRecord {
    pub id: u128,
    pub elo_rating: i32,
}

/// Which transaction the workflow runs in.
#[derive(Debug, Clone, Copy)]
pub enum WorkflowMode {
    /// Inside a transaction that the caller opened and will finish.
    InTransaction,
    /// In a transaction of its own: begun first, committed or rolled back last.
    OwnTransaction,
    /// In a transaction of its own that first stores `result` for a game that has none.
    CompleteGame(ResultSide),
}

/// Where the workflow stands; each stage waits for one kind of event.
#[derive(Debug, Clone)]
pub enum Stage {
    Beginning,
    CheckingGame,
    WritingResult,
    LoadingGame,
    LoadingWhite { white_outcome: GameOutcome, black_player: u128 },
    LoadingBlack { white_outcome: GameOutcome, white: PlayerRecord },
    Evaluating { white_outcome: GameOutcome, white_id: u128, black_id: u128 },
    WritingWhite { black_id: u128, new_white: i32, new_black: i32 },
    WritingBlack { new_white: i32, new_black: i32 },
    Committing { new_white: i32, new_black: i32 },
    RollingBack { failure: RatingFailure },
    Done,
}

/// What the store reported back for the last action. A `String` error is the
/// database's description of what went wrong.
#[derive(Debug)]
pub enum StoreEvent {
    TransactionBegun(Result<(), String>),
    GameLoaded(Result<Option<GameRecord>, String>),
    GameResultWritten(Result<(), String>),
    PlayerLoaded(Result<Option<PlayerRecord>, String>),
    /// The formula's two new ratings, in the order the formula returns them.
    FormulaEvaluated(u32, u32),
    RatingWritten(Result<(), String>),
    Committed(Result<(), String>),
    RolledBack,
}

/// The next thing the caller has to do for the workflow.
#[derive(Debug)]
pub enum StoreAction {
    BeginTransaction,
    LoadGame(u128),
    /// Store the result of the game (and stamp its update time).
    WriteGameResult(u128, ResultSide),
    LoadPlayer(u128),
    EvaluateFormula(RatingFormula),
    WriteRating(u128, i32),
    Commit,
    Rollback,
    /// The workflow is over, with the new `(white, black)` ratings or why it failed.
    Finish(Result<(i32, i32), RatingFailure>),
}

/// The rating update of one finished game, as a machine that decides each step
/// and leaves the store's work to its caller.
#[derive(Debug, Clone)]
pub struct RatingWorkflow {
    pub mode: WorkflowMode,
    pub game_id: u128,
    pub config: RatingConfig,
    pub stage: Stage,
}

/// The outcome for white of a stored game result, or why no rating changes.
pub open spec fn white_outcome_of(result: Option<ResultSide>) -> Result<GameOutcome, RatingFailure> {
    match result {
        None => Err(RatingFailure::GameNotCompleted),
        Some(ResultSide::WhiteWins) => Ok(GameOutcome::Win),
        Some(ResultSide::BlackWins) => Ok(GameOutcome::Loss),
        Some(ResultSide::Draw) => Ok(GameOutcome::Draw),
        Some(ResultSide::Ongoing) => Err(RatingFailure::GameOngoing),
        Some(ResultSide::Abandoned) => Err(RatingFailure::GameAbandoned),
    }
}

/// Distance of a stage from the end: every step lowers it.
pub open spec fn stage_rank(stage: Stage) -> nat {
    match stage {
        Stage::Beginning => 11,
        Stage::CheckingGame => 10,
        Stage::WritingResult => 9,
        Stage::LoadingGame => 8,
        Stage::LoadingWhite { .. } => 7,
        Stage::LoadingBlack { .. } => 6,
        Stage::Evaluating { .. } => 5,
        Stage::WritingWhite { .. } => 4,
        Stage::WritingBlack { .. } => 3,
        Stage::Committing { .. } => 2,
        Stage::RollingBack { .. } => 1,
        Stage::Done => 0,
    }
}

impl RatingWorkflow {
    pub open spec fn with_stage(self, stage: Stage) -> RatingWorkflow {
        RatingWorkflow { mode: self.mode, game_id: self.game_id, config: self.config, stage }
    }

    pub open spec fn owns_transaction(self) -> bool {
        !(self.mode is InTransaction)
    }

    /// The stage fits the mode, and ratings already decided lie within the bounds.
    pub open spec fn wf(self) -> bool {
        match self.stage {
            Stage::Beginning => self.owns_transaction(),
            Stage::CheckingGame => self.mode is CompleteGame,
            Stage::WritingResult => self.mode is CompleteGame,
            Stage::WritingWhite { new_white, new_black, .. } => self.config.admits(
                new_white as int,
            ) && self.config.admits(new_black as int),
            Stage::WritingBlack { new_white, new_black } => self.config.admits(new_white as int)
                && self.config.admits(new_black as int),
            Stage::Committing { new_white, new_black } => self.owns_transaction()
                && self.config.admits(new_white as int) && self.config.admits(new_black as int),
            Stage::RollingBack { .. } => self.owns_transaction(),
            _ => true,
        }
    }

    /// The event answers the action that the current stage asked for.
    pub open spec fn accepts(self, event: StoreEvent) -> bool {
        match self.stage {
            Stage::Beginning => event is TransactionBegun,
            Stage::CheckingGame => event is GameLoaded,
            Stage::WritingResult => event is GameResultWritten,
            Stage::LoadingGame => event is GameLoaded,
            Stage::LoadingWhite { .. } => event is PlayerLoaded,
            Stage::LoadingBlack { .. } => event is PlayerLoaded,
            Stage::Evaluating { .. } => event is FormulaEvaluated,
            Stage::WritingWhite { .. } => event is RatingWritten,
            Stage::WritingBlack { .. } => event is RatingWritten,
            Stage::Committing { .. } => event is Committed,
            Stage::RollingBack { .. } => event is RolledBack,
            Stage::Done => false,
        }
    }

    /// Stepping on `event` is possible: it is the awaited kind, and the bounds are
    /// ordered when the ratings are about to be clamped (`i32::clamp` panics otherwise).
    pub open spec fn can_step_spec(self, event: StoreEvent) -> bool {
        &&& self.accepts(event)
        &&& self.stage is Evaluating ==> self.config.bounds_ordered()
    }

    /// Stop with `result`.
    pub open spec fn finish(self, result: Result<(i32, i32), RatingFailure>) -> (
        RatingWorkflow,
        StoreAction,
    ) {
        (self.with_stage(Stage::Done), StoreAction::Finish(result))
    }

    /// The rating update failed: inside the caller's transaction the failure is
    /// returned at once, in a transaction of its own that transaction is rolled back first.
    pub open spec fn fail(self, failure: RatingFailure) -> (RatingWorkflow, StoreAction) {
        if self.owns_transaction() {
            (self.with_stage(Stage::RollingBack { failure }), StoreAction::Rollback)
        } else {
            self.finish(Err(failure))
        }
    }

    /// The rating update succeeded with the new ratings.
    pub open spec fn succeed(self, new_white: i32, new_black: i32) -> (RatingWorkflow, StoreAction) {
        if self.owns_transaction() {
            (self.with_stage(Stage::Committing { new_white, new_black }), StoreAction::Commit)
        } else {
            self.finish(Ok((new_white, new_black)))
        }
    }

    /// The transition on `event`: the next state and what the caller has to do next.
    /// Only events that [`RatingWorkflow::accepts`] are ever stepped on; the values
    /// given for other events are placeholders that no run reaches.
    pub open spec fn next(self, event: StoreEvent) -> (RatingWorkflow, StoreAction) {
        match self.stage {
            Stage::Beginning => match event {
                StoreEvent::TransactionBegun(Err(e)) => self.finish(Err(RatingFailure::BeginFailed(e))),
                _ => if self.mode is CompleteGame {
                    (self.with_stage(Stage::CheckingGame), StoreAction::LoadGame(self.game_id))
                } else {
                    (self.with_stage(Stage::LoadingGame), StoreAction::LoadGame(self.game_id))
                },
            },
            Stage::CheckingGame => match event {
                StoreEvent::GameLoaded(Err(e)) => self.finish(Err(RatingFailure::GameFetchFailed(e))),
                StoreEvent::GameLoaded(Ok(None)) => self.finish(Err(RatingFailure::GameNotFound)),
                StoreEvent::GameLoaded(Ok(Some(game))) => if game.result is Some {
                    (
                        self.with_stage(Stage::RollingBack { failure: RatingFailure::GameAlreadyCompleted }),
                        StoreAction::Rollback,
                    )
                } else {
                    (
                        self.with_stage(Stage::WritingResult),
                        StoreAction::WriteGameResult(self.game_id, self.mode->CompleteGame_0),
                    )
                },
                _ => self.finish(Err(RatingFailure::GameNotFound)),
            },
            Stage::WritingResult => match event {
                StoreEvent::GameResultWritten(Err(e)) => self.finish(
                    Err(RatingFailure::GameResultWriteFailed(e)),
                ),
                _ => (self.with_stage(Stage::LoadingGame), StoreAction::LoadGame(self.game_id)),
            },
            Stage::LoadingGame => match event {
                StoreEvent::GameLoaded(Err(e)) => self.fail(RatingFailure::GameFetchFailed(e)),
                StoreEvent::GameLoaded(Ok(Some(game))) => match white_outcome_of(game.result) {
                    Err(f) => self.fail(f),
                    Ok(white_outcome) => (
                        self.with_stage(
                            Stage::LoadingWhite { white_outcome, black_player: game.black_player },
                        ),
                        StoreAction::LoadPlayer(game.white_player),
                    ),
                },
                _ => self.fail(RatingFailure::GameNotFound),
            },
            Stage::LoadingWhite { white_outcome, black_player } => match event {
                StoreEvent::PlayerLoaded(Err(e)) => self.fail(RatingFailure::WhiteFetchFailed(e)),
                StoreEvent::PlayerLoaded(Ok(Some(white))) => (
                    self.with_stage(Stage::LoadingBlack { white_outcome, white }),
                    StoreAction::LoadPlayer(black_player),
                ),
                _ => self.fail(RatingFailure::WhiteNotFound),
            },
            Stage::LoadingBlack { white_outcome, white } => match event {
                StoreEvent::PlayerLoaded(Err(e)) => self.fail(RatingFailure::BlackFetchFailed(e)),
                StoreEvent::PlayerLoaded(Ok(Some(black))) => (
                    self.with_stage(
                        Stage::Evaluating { white_outcome, white_id: white.id, black_id: black.id },
                    ),
                    StoreAction::EvaluateFormula(
                        rating_formula_spec(
                            white.elo_rating,
                            black.elo_rating,
                            white_outcome,
                            self.config.k_factor,
                        ),
                    ),
                ),
                _ => self.fail(RatingFailure::BlackNotFound),
            },
            Stage::Evaluating { white_outcome, white_id, black_id } => match event {
                StoreEvent::FormulaEvaluated(first, second) => {
                    let ratings = rating_changes_spec(white_outcome, (first, second), self.config);
                    (
                        self.with_stage(
                            Stage::WritingWhite {
                                black_id,
                                new_white: ratings.0 as i32,
                                new_black: ratings.1 as i32,
                            },
                        ),
                        StoreAction::WriteRating(white_id, ratings.0 as i32),
                    )
                },
                _ => self.finish(Err(RatingFailure::GameNotFound)),
            },
            Stage::WritingWhite { black_id, new_white, new_black } => match event {
                StoreEvent::RatingWritten(Err(e)) => self.fail(RatingFailure::WhiteWriteFailed(e)),
                _ => (
                    self.with_stage(Stage::WritingBlack { new_white, new_black }),
                    StoreAction::WriteRating(black_id, new_black),
                ),
            },
            Stage::WritingBlack { new_white, new_black } => match event {
                StoreEvent::RatingWritten(Err(e)) => self.fail(RatingFailure::BlackWriteFailed(e)),
                _ => self.succeed(new_white, new_black),
            },
            Stage::Committing { new_white, new_black } => match event {
                StoreEvent::Committed(Err(e)) => self.finish(Err(RatingFailure::CommitFailed(e))),
                _ => self.finish(Ok((new_white, new_black))),
            },
            Stage::RollingBack { failure } => self.finish(Err(failure)),
            Stage::Done => (self, StoreAction::Finish(Err(RatingFailure::GameNotFound))),
        }
    }
}


fn copy_config(config: &RatingConfig) -> (c: RatingConfig)
    ensures
        c == *config,
{
    RatingConfig {
        k_factor: config.k_factor,
        min_rating: config.min_rating,
        max_rating: config.max_rating,
    }
}

fn white_outcome_for(result: Option<ResultSide>) -> (r: Result<GameOutcome, RatingFailure>)
    ensures
        r == white_outcome_of(result),
{
    match result {
        None => Err(RatingFailure::GameNotCompleted),
        Some(ResultSide::WhiteWins) => Ok(GameOutcome::Win),
        Some(ResultSide::BlackWins) => Ok(GameOutcome::Loss),
        Some(ResultSide::Draw) => Ok(GameOutcome::Draw),
        Some(ResultSide::Ongoing) => Err(RatingFailure::GameOngoing),
        Some(ResultSide::Abandoned) => Err(RatingFailure::GameAbandoned),
    }
}

impl RatingWorkflow {
    fn owns(&self) -> (b: bool)
        ensures
            b == self.owns_transaction(),
    {
        match self.mode {
            WorkflowMode::InTransaction => false,
            _ => true,
        }
    }

    fn moved_to(self, stage: Stage) -> (w: RatingWorkflow)
        ensures
            w == self.with_stage(stage),
    {
        RatingWorkflow { mode: self.mode, game_id: self.game_id, config: self.config, stage }
    }

    fn finished(self, result: Result<(i32, i32), RatingFailure>) -> (res: (
        RatingWorkflow,
        StoreAction,
    ))
        ensures
            res == self.finish(result),
    {
        (self.moved_to(Stage::Done), StoreAction::Finish(result))
    }

    fn failed(self, failure: RatingFailure) -> (res: (RatingWorkflow, StoreAction))
        ensures
            res == self.fail(failure),
    {
        if self.owns() {
            (self.moved_to(Stage::RollingBack { failure }), StoreAction::Rollback)
        } else {
            self.finished(Err(failure))
        }
    }

    fn succeeded(self, new_white: i32, new_black: i32) -> (res: (RatingWorkflow, StoreAction))
        ensures
            res == self.succeed(new_white, new_black),
    {
        if self.owns() {
            (self.moved_to(Stage::Committing { new_white, new_black }), StoreAction::Commit)
        } else {
            self.finished(Ok((new_white, new_black)))
        }
    }

    /// Whether the workflow is well formed, as every workflow that the starting
    /// functions and [`RatingWorkflow::step`] return is.
    pub fn is_well_formed(&self) -> (b: bool)
        ensures
            b == self.wf(),
    {
        let owns = self.owns();
        let lo = self.config.min_rating;
        let hi = self.config.max_rating;
        match &self.stage {
            Stage::Beginning => owns,
            Stage::CheckingGame => matches!(self.mode, WorkflowMode::CompleteGame(_)),
            Stage::WritingResult => matches!(self.mode, WorkflowMode::CompleteGame(_)),
            Stage::WritingWhite { new_white, new_black, .. } => lo <= *new_white && *new_white <= hi
                && lo <= *new_black && *new_black <= hi,
            Stage::WritingBlack { new_white, new_black } => lo <= *new_white && *new_white <= hi
                && lo <= *new_black && *new_black <= hi,
            Stage::Committing { new_white, new_black } => owns && lo <= *new_white && *new_white
                <= hi && lo <= *new_black && *new_black <= hi,
            Stage::RollingBack { .. } => owns,
            _ => true,
        }
    }

    /// Whether [`RatingWorkflow::step`] may be called with `event`.
    pub fn can_step(&self, event: &StoreEvent) -> (b: bool)
        ensures
            b == self.can_step_spec(*event),
    {
        match &self.stage {
            Stage::Beginning => matches!(event, StoreEvent::TransactionBegun(_)),
            Stage::CheckingGame => matches!(event, StoreEvent::GameLoaded(_)),
            Stage::WritingResult => matches!(event, StoreEvent::GameResultWritten(_)),
            Stage::LoadingGame => matches!(event, StoreEvent::GameLoaded(_)),
            Stage::LoadingWhite { .. } => matches!(event, StoreEvent::PlayerLoaded(_)),
            Stage::LoadingBlack { .. } => matches!(event, StoreEvent::PlayerLoaded(_)),
            Stage::Evaluating { .. } => matches!(event, StoreEvent::FormulaEvaluated(_, _))
                && self.config.min_rating <= self.config.max_rating,
            Stage::WritingWhite { .. } => matches!(event, StoreEvent::RatingWritten(_)),
            Stage::WritingBlack { .. } => matches!(event, StoreEvent::RatingWritten(_)),
            Stage::Committing { .. } => matches!(event, StoreEvent::Committed(_)),
            Stage::RollingBack { .. } => matches!(event, StoreEvent::RolledBack),
            Stage::Done => false,
        }
    }

    /// Take the store's answer to the last action and decide what comes next.
    pub fn step(self, event: StoreEvent) -> (res: (RatingWorkflow, StoreAction))
        requires
            self.wf(),
            self.can_step_spec(event),
        ensures
            res == self.next(event),
            res.0.wf(),
    {
        let ghost old_self = self;
        let stage = self.stage;
        let shell = RatingWorkflow {
            mode: self.mode,
            game_id: self.game_id,
            config: self.config,
            stage: Stage::Done,
        };
        assert(forall|s: Stage| shell.with_stage(s) == old_self.with_stage(s));
        match stage {
            Stage::Beginning => match event {
                StoreEvent::TransactionBegun(Err(e)) => shell.finished(
                    Err(RatingFailure::BeginFailed(e)),
                ),
                _ => {
                    let game_id = shell.game_id;
                    if let WorkflowMode::CompleteGame(_) = shell.mode {
                        (shell.moved_to(Stage::CheckingGame), StoreAction::LoadGame(game_id))
                    } else {
                        (shell.moved_to(Stage::LoadingGame), StoreAction::LoadGame(game_id))
                    }
                },
            },
            Stage::CheckingGame => match event {
                StoreEvent::GameLoaded(Err(e)) => shell.finished(
                    Err(RatingFailure::GameFetchFailed(e)),
                ),
                StoreEvent::GameLoaded(Ok(None)) => shell.finished(Err(RatingFailure::GameNotFound)),
                StoreEvent::GameLoaded(Ok(Some(game))) => {
                    if game.result.is_some() {
                        (
                            shell.moved_to(
                                Stage::RollingBack { failure: RatingFailure::GameAlreadyCompleted },
                            ),
                            StoreAction::Rollback,
                        )
                    } else {
                        let game_id = shell.game_id;
                        let result = match shell.mode {
                            WorkflowMode::CompleteGame(r) => r,
                            _ => ResultSide::Draw,
                        };
                        (
                            shell.moved_to(Stage::WritingResult),
                            StoreAction::WriteGameResult(game_id, result),
                        )
                    }
                },
                _ => shell.finished(Err(RatingFailure::GameNotFound)),
            },
            Stage::WritingResult => match event {
                StoreEvent::GameResultWritten(Err(e)) => shell.finished(
                    Err(RatingFailure::GameResultWriteFailed(e)),
                ),
                _ => {
                    let game_id = shell.game_id;
                    (shell.moved_to(Stage::LoadingGame), StoreAction::LoadGame(game_id))
                },
            },
            Stage::LoadingGame => match event {
                StoreEvent::GameLoaded(Err(e)) => shell.failed(RatingFailure::GameFetchFailed(e)),
                StoreEvent::GameLoaded(Ok(Some(game))) => match white_outcome_for(game.result) {
                    Err(f) => shell.failed(f),
                    Ok(white_outcome) => (
                        shell.moved_to(
                            Stage::LoadingWhite { white_outcome, black_player: game.black_player },
                        ),
                        StoreAction::LoadPlayer(game.white_player),
                    ),
                },
                _ => shell.failed(RatingFailure::GameNotFound),
            },
            Stage::LoadingWhite { white_outcome, black_player } => match event {
                StoreEvent::PlayerLoaded(Err(e)) => shell.failed(RatingFailure::WhiteFetchFailed(e)),
                StoreEvent::PlayerLoaded(Ok(Some(white))) => (
                    shell.moved_to(Stage::LoadingBlack { white_outcome, white }),
                    StoreAction::LoadPlayer(black_player),
                ),
                _ => shell.failed(RatingFailure::WhiteNotFound),
            },
            Stage::LoadingBlack { white_outcome, white } => match event {
                StoreEvent::PlayerLoaded(Err(e)) => shell.failed(RatingFailure::BlackFetchFailed(e)),
                StoreEvent::PlayerLoaded(Ok(Some(black))) => {
                    let formula = RatingService::rating_formula(
                        white.elo_rating,
                        black.elo_rating,
                        white_outcome,
                        &shell.config,
                    );
                    (
                        shell.moved_to(
                            Stage::Evaluating { white_outcome, white_id: white.id, black_id: black.id },
                        ),
                        StoreAction::EvaluateFormula(formula),
                    )
                },
                _ => shell.failed(RatingFailure::BlackNotFound),
            },
            Stage::Evaluating { white_outcome, white_id, black_id } => match event {
                StoreEvent::FormulaEvaluated(first, second) => {
                    let (new_white, new_black) = RatingService::calculate_rating_changes(
                        white_outcome,
                        (first, second),
                        &shell.config,
                    );
                    (
                        shell.moved_to(Stage::WritingWhite { black_id, new_white, new_black }),
                        StoreAction::WriteRating(white_id, new_white),
                    )
                },
                _ => shell.finished(Err(RatingFailure::GameNotFound)),
            },
            Stage::WritingWhite { black_id, new_white, new_black } => match event {
                StoreEvent::RatingWritten(Err(e)) => shell.failed(RatingFailure::WhiteWriteFailed(e)),
                _ => (
                    shell.moved_to(Stage::WritingBlack { new_white, new_black }),
                    StoreAction::WriteRating(black_id, new_black),
                ),
            },
            Stage::WritingBlack { new_white, new_black } => match event {
                StoreEvent::RatingWritten(Err(e)) => shell.failed(RatingFailure::BlackWriteFailed(e)),
                _ => shell.succeeded(new_white, new_black),
            },
            Stage::Committing { new_white, new_black } => match event {
                StoreEvent::Committed(Err(e)) => shell.finished(Err(RatingFailure::CommitFailed(e))),
                _ => shell.finished(Ok((new_white, new_black))),
            },
            Stage::RollingBack { failure } => shell.finished(Err(failure)),
            Stage::Done => (
                RatingWorkflow { stage: Stage::Done, ..shell },
                StoreAction::Finish(Err(RatingFailure::GameNotFound)),
            ),
        }
    }
}

impl RatingService {
    /// Start the rating update of a completed game inside the caller's open
    /// transaction: the game is loaded first.
    pub fn update_ratings_in_transaction(game_id: u128, config: &RatingConfig) -> (res: (
        RatingWorkflow,
        StoreAction,
    ))
        ensures
            res.0 == (RatingWorkflow {
                mode: WorkflowMode::InTransaction,
                game_id,
                config: *config,
                stage: Stage::LoadingGame,
            }),
            res.1 == StoreAction::LoadGame(game_id),
            res.0.wf(),
    {
        let w = RatingWorkflow {
            mode: WorkflowMode::InTransaction,
            game_id,
            config: copy_config(config),
            stage: Stage::LoadingGame,
        };
        (w, StoreAction::LoadGame(game_id))
    }

    /// Start the rating update of a completed game in a transaction of its own:
    /// the transaction is begun first, and committed only when both ratings are stored.
    pub fn update_ratings_after_game(game_id: u128, config: &RatingConfig) -> (res: (
        RatingWorkflow,
        StoreAction,
    ))
        ensures
            res.0 == (RatingWorkflow {
                mode: WorkflowMode::OwnTransaction,
                game_id,
                config: *config,
                stage: Stage::Beginning,
            }),
            res.1 == StoreAction::BeginTransaction,
            res.0.wf(),
    {
        let w = RatingWorkflow {
            mode: WorkflowMode::OwnTransaction,
            game_id,
            config: copy_config(config),
            stage: Stage::Beginning,
        };
        (w, StoreAction::BeginTransaction)
    }
}

impl GameService {
    /// Start completing a game with `result`: in one transaction the result is stored
    /// for a game that has none yet, and both players' ratings are updated. Without a
    /// configuration the default one is used.
    pub fn complete_game(
        game_id: u128,
        result: ResultSide,
        rating_config: Option<RatingConfig>,
    ) -> (res: (RatingWorkflow, StoreAction))
        ensures
            res.0.mode == WorkflowMode::CompleteGame(result),
            res.0.game_id == game_id,
            res.0.stage == Stage::Beginning,
            match rating_config {
                Some(c) => res.0.config == c,
                None => res.0.config == (RatingConfig { k_factor: 32, min_rating: 100, max_rating: 3000 }),
            },
            res.1 == StoreAction::BeginTransaction,
            res.0.wf(),
    {
        let config = match rating_config {
            Some(c) => c,
            None => RatingConfig::default(),
        };
        let w = RatingWorkflow {
            mode: WorkflowMode::CompleteGame(result),
            game_id,
            config,
            stage: Stage::Beginning,
        };
        (w, StoreAction::BeginTransaction)
    }
}

} // verus!
