//! Properties of the rating calculation and of the rating workflow that hold
//! across calls.
use vstd::prelude::*;

use crate::failure::RatingFailure;
use crate::games::{
    filters_admit, in_list_order, lists_before, matching_rows, query_admits, query_result, select,
    selected_rows, GameRow, ListGamesQuery,
};
use crate::rating::{
    clamp_spec, i32_as_u32, u32_as_i32, RatingFormula, draw_rating, rating_changes_spec, rating_formula_spec, GameOutcome, RatingConfig,
};
use crate::workflow::{
    PlayerRecord, WorkflowMode,
    stage_rank, white_outcome_of, RatingWorkflow, Stage, StoreAction, StoreEvent,
};

verus! {

/// A draw is zero-sum: whenever neither rating hits a limit, what white gains
/// black loses.
pub proof fn law_draw_is_zero_sum(white_rating: i32, black_rating: i32, white_delta: i64)
    requires
        0 <= white_rating + white_delta <= u32::MAX,
        0 <= black_rating - white_delta <= u32::MAX,
    ensures
        (draw_rating(white_rating as int, white_delta as int) - white_rating) + (draw_rating(
            black_rating as int,
            -(white_delta as int),
        ) - black_rating) == 0,
{
}

/// A draw moves white by its change and black by the opposite change whenever
/// neither rating hits a limit: a negative change lowers white and raises black, a
/// positive one the reverse.
pub proof fn law_draw_moves_by_the_change(white_rating: i32, black_rating: i32, white_delta: i64)
    requires
        0 <= white_rating + white_delta <= u32::MAX,
        0 <= black_rating - white_delta <= u32::MAX,
    ensures
        draw_rating(white_rating as int, white_delta as int) == white_rating + white_delta,
        draw_rating(black_rating as int, -(white_delta as int)) == black_rating - white_delta,
        white_delta < 0 ==> draw_rating(white_rating as int, white_delta as int) < white_rating
            && draw_rating(black_rating as int, -(white_delta as int)) > black_rating,
        white_delta > 0 ==> draw_rating(white_rating as int, white_delta as int) > white_rating
            && draw_rating(black_rating as int, -(white_delta as int)) < black_rating,
{
}

/// A draw without change leaves both (non-negative) ratings as they were.
pub proof fn law_draw_without_change_keeps_ratings(white_rating: i32, black_rating: i32)
    requires
        white_rating >= 0,
        black_rating >= 0,
    ensures
        draw_rating(white_rating as int, 0) == white_rating,
        draw_rating(black_rating as int, 0) == black_rating,
{
}

/// Colour does not matter for a decisive game: white losing is evaluated and
/// stored exactly as black winning.
pub proof fn law_colour_symmetry(
    white_rating: i32,
    black_rating: i32,
    formula_result: (u32, u32),
    config: RatingConfig,
)
    ensures
        rating_formula_spec(white_rating, black_rating, GameOutcome::Loss, config.k_factor)
            == rating_formula_spec(black_rating, white_rating, GameOutcome::Win, config.k_factor),
        rating_changes_spec(GameOutcome::Loss, formula_result, config) == ({
            let won = rating_changes_spec(GameOutcome::Win, formula_result, config);
            (won.1, won.0)
        }),
{
}

/// Clamping leaves a rating that already lies within the bounds unchanged.
pub proof fn law_clamp_keeps_admitted_rating(rating: i32, config: RatingConfig)
    requires
        config.admits(rating as int),
    ensures
        clamp_spec(rating as int, config.min_rating as int, config.max_rating as int) == rating,
{
}

/// Every step keeps the workflow well formed.
pub proof fn law_step_keeps_wf(w: RatingWorkflow, event: StoreEvent)
    requires
        w.wf(),
        w.can_step_spec(event),
    ensures
        w.next(event).0.wf(),
{
}

/// Every step moves the workflow closer to its end, so a workflow finishes after
/// at most eleven steps.
pub proof fn law_step_makes_progress(w: RatingWorkflow, event: StoreEvent)
    requires
        w.wf(),
        w.can_step_spec(event),
    ensures
        stage_rank(w.next(event).0.stage) < stage_rank(w.stage),
{
}

/// A workflow finishes exactly when it reaches its last stage.
pub proof fn law_finish_exactly_when_done(w: RatingWorkflow, event: StoreEvent)
    requires
        w.wf(),
        w.can_step_spec(event),
    ensures
        w.next(event).1 is Finish <==> w.next(event).0.stage is Done,
{
}

/// Every rating written, and every rating reported as the result, lies within the
/// configured bounds.
pub proof fn law_ratings_within_bounds(w: RatingWorkflow, event: StoreEvent)
    requires
        w.wf(),
        w.can_step_spec(event),
    ensures
        w.next(event).1 matches StoreAction::WriteRating(_, r) ==> w.config.admits(r as int),
        w.next(event).1 matches StoreAction::Finish(Ok((white, black))) ==> w.config.admits(
            white as int,
        ) && w.config.admits(black as int),
{
}

/// The transaction is committed only after both new ratings were written.
pub proof fn law_commit_only_after_both_writes(w: RatingWorkflow, event: StoreEvent)
    requires
        w.wf(),
        w.can_step_spec(event),
        w.next(event).1 is Commit,
    ensures
        w.stage is WritingBlack,
        event matches StoreEvent::RatingWritten(Ok(_)),
        w.owns_transaction(),
{
}

/// A successful result is reported only once the transaction that the workflow
/// owns has been committed.
pub proof fn law_success_only_after_commit(w: RatingWorkflow, event: StoreEvent)
    requires
        w.wf(),
        w.can_step_spec(event),
        w.owns_transaction(),
        w.next(event).1 matches StoreAction::Finish(Ok(_)),
    ensures
        w.stage is Committing,
        event matches StoreEvent::Committed(Ok(_)),
{
}

/// In a transaction of its own, the rating update never stops halfway: a failure
/// once the game is being rated leads to a rollback, not to an immediate finish.
pub proof fn law_failed_update_rolls_back(w: RatingWorkflow, event: StoreEvent)
    requires
        w.wf(),
        w.can_step_spec(event),
        w.owns_transaction(),
        w.stage is LoadingGame || w.stage is LoadingWhite || w.stage is LoadingBlack
            || w.stage is Evaluating || w.stage is WritingWhite || w.stage is WritingBlack,
    ensures
        !(w.next(event).1 is Finish),
        w.next(event).1 is Rollback <==> w.next(event).0.stage is RollingBack,
{
}

/// A game without a rated result (not finished, still ongoing or abandoned) changes
/// no rating: no player is loaded and the workflow reports why.
pub proof fn law_unrated_games_change_nothing(w: RatingWorkflow, game: crate::workflow::GameRecord)
    requires
        w.wf(),
        w.stage is LoadingGame,
        white_outcome_of(game.result) is Err,
    ensures
        ({
            let (next, action) = w.next(StoreEvent::GameLoaded(Ok(Some(game))));
            let failure = white_outcome_of(game.result)->Err_0;
            if w.owns_transaction() {
                next.stage == (Stage::RollingBack { failure }) && action is Rollback
            } else {
                next.stage is Done && action == StoreAction::Finish(Err(failure))
            }
        }),
{
}

/// Completing a game that already has a result is refused, and the transaction is
/// rolled back without writing anything.
pub proof fn law_completed_game_is_not_overwritten(
    w: RatingWorkflow,
    game: crate::workflow::GameRecord,
)
    requires
        w.wf(),
        w.stage is CheckingGame,
        game.result is Some,
    ensures
        w.next(StoreEvent::GameLoaded(Ok(Some(game)))).1 is Rollback,
        w.next(StoreEvent::GameLoaded(Ok(Some(game)))).0.stage == (Stage::RollingBack {
            failure: RatingFailure::GameAlreadyCompleted,
        }),
{
}

/// The actions a workflow asks for while it is stepped on `events` in turn.
pub open spec fn run_actions(w: RatingWorkflow, events: Seq<StoreEvent>) -> Seq<StoreAction>
    decreases events.len(),
{
    if events.len() == 0 {
        Seq::empty()
    } else {
        let (next, action) = w.next(events[0]);
        seq![action] + run_actions(next, events.drop_first())
    }
}

/// Each of `events` in turn is one the workflow can step on.
pub open spec fn run_accepted(w: RatingWorkflow, events: Seq<StoreEvent>) -> bool
    decreases events.len(),
{
    events.len() == 0 || (w.can_step_spec(events[0]) && run_accepted(
        w.next(events[0]).0,
        events.drop_first(),
    ))
}

/// `actions[k]` ends the transaction, by commit or by rollback.
pub open spec fn ends_transaction(actions: Seq<StoreAction>, k: int) -> bool {
    actions[k] is Commit || actions[k] is Rollback
}

/// A workflow takes at most as many steps as its stage's distance from the end:
/// every run finishes after at most eleven events.
pub proof fn law_runs_are_bounded(w: RatingWorkflow, events: Seq<StoreEvent>)
    requires
        w.wf(),
        run_accepted(w, events),
    ensures
        events.len() <= stage_rank(w.stage),
    decreases events.len(),
{
    if events.len() > 0 {
        let next = w.next(events[0]).0;
        law_runs_are_bounded(next, events.drop_first());
    }
}

proof fn lemma_pending_writes_end_transaction(w: RatingWorkflow, events: Seq<StoreEvent>, j: int)
    requires
        w.wf(),
        w.owns_transaction(),
        w.stage is WritingWhite || w.stage is WritingBlack,
        run_accepted(w, events),
        0 <= j < run_actions(w, events).len(),
        run_actions(w, events)[j] is Finish,
    ensures
        exists|k: int| 0 <= k < j && ends_transaction(run_actions(w, events), k),
    decreases events.len(),
{
    let acts = run_actions(w, events);
    let (next, action) = w.next(events[0]);
    let rest = run_actions(next, events.drop_first());
    assert(acts =~= seq![action] + rest);
    assert(acts[0] == action);
    if action is Commit || action is Rollback {
        assert(ends_transaction(acts, 0));
    } else {
        assert(next.stage is WritingBlack);
        assert(acts[j] == rest[j - 1]);
        lemma_pending_writes_end_transaction(next, events.drop_first(), j - 1);
        let k = choose|k: int| 0 <= k < j - 1 && ends_transaction(rest, k);
        assert(acts[k + 1] == rest[k]);
        assert(ends_transaction(acts, k + 1));
    }
}

/// Atomicity: in a transaction of its own, once a rating has been written the
/// workflow finishes only after committing or rolling back the transaction.
pub proof fn law_written_ratings_end_in_commit_or_rollback(
    w: RatingWorkflow,
    events: Seq<StoreEvent>,
    i: int,
    j: int,
)
    requires
        w.wf(),
        w.owns_transaction(),
        run_accepted(w, events),
        0 <= i < j < run_actions(w, events).len(),
        run_actions(w, events)[i] is WriteRating,
        run_actions(w, events)[j] is Finish,
    ensures
        exists|k: int| i < k < j && ends_transaction(run_actions(w, events), k),
    decreases events.len(),
{
    let acts = run_actions(w, events);
    let (next, action) = w.next(events[0]);
    let rest = run_actions(next, events.drop_first());
    assert(acts =~= seq![action] + rest);
    assert(acts[j] == rest[j - 1]);
    if i == 0 {
        assert(next.stage is WritingWhite || next.stage is WritingBlack);
        lemma_pending_writes_end_transaction(next, events.drop_first(), j - 1);
        let k = choose|k: int| 0 <= k < j - 1 && ends_transaction(rest, k);
        assert(acts[k + 1] == rest[k]);
        assert(ends_transaction(acts, k + 1));
    } else {
        assert(acts[i] == rest[i - 1]);
        law_written_ratings_end_in_commit_or_rollback(next, events.drop_first(), i - 1, j - 1);
        let k = choose|k: int| i - 1 < k < j - 1 && ends_transaction(rest, k);
        assert(acts[k + 1] == rest[k]);
        assert(ends_transaction(acts, k + 1));
    }
}

/// In the run on `events`, the game answered at `o` has a rated result, its two
/// players are loaded next, and after the formula the loaded white player gets
/// `white` and the loaded black player `black` (both within the bounds), all before
/// the action at `j`.
pub open spec fn rated_and_written(
    w: RatingWorkflow,
    events: Seq<StoreEvent>,
    o: int,
    j: int,
    white: i32,
    black: i32,
) -> bool {
    let acts = run_actions(w, events);
    &&& 0 <= o
    &&& o + 4 < j < events.len()
    &&& events[o] matches StoreEvent::GameLoaded(Ok(Some(game))) && white_outcome_of(game.result) is Ok
        && acts[o] == StoreAction::LoadPlayer(game.white_player) && acts[o + 1]
        == StoreAction::LoadPlayer(game.black_player)
    &&& events[o + 1] matches StoreEvent::PlayerLoaded(Ok(Some(white_player))) && acts[o + 3]
        == StoreAction::WriteRating(white_player.id, white)
    &&& events[o + 2] matches StoreEvent::PlayerLoaded(Ok(Some(black_player))) && acts[o + 4]
        == StoreAction::WriteRating(black_player.id, black)
    &&& w.config.admits(white as int)
    &&& w.config.admits(black as int)
}

proof fn lemma_split_run(w: RatingWorkflow, events: Seq<StoreEvent>)
    requires
        events.len() > 0,
    ensures
        run_actions(w, events) =~= seq![w.next(events[0]).1] + run_actions(
            w.next(events[0]).0,
            events.drop_first(),
        ),
        run_actions(w, events).len() == events.len(),
    decreases events.len(),
{
    let rest = events.drop_first();
    if rest.len() > 0 {
        lemma_split_run(w.next(events[0]).0, rest);
    }
}

proof fn lemma_done_runs_are_empty(w: RatingWorkflow, events: Seq<StoreEvent>)
    requires
        w.stage is Done,
        run_accepted(w, events),
    ensures
        events.len() == 0,
{
}

/// A rolled-back or finished workflow reports no success.
proof fn lemma_no_success_after_failure(
    w: RatingWorkflow,
    events: Seq<StoreEvent>,
    j: int,
    white: i32,
    black: i32,
)
    requires
        w.wf(),
        w.stage is RollingBack || w.stage is Done,
        run_accepted(w, events),
        0 <= j < run_actions(w, events).len(),
    ensures
        run_actions(w, events)[j] != StoreAction::Finish(Ok((white, black))),
{
    lemma_split_run(w, events);
    let next = w.next(events[0]).0;
    lemma_done_runs_are_empty(next, events.drop_first());
}

/// After a step that failed, no success follows.
proof fn lemma_failed_step(w: RatingWorkflow, events: Seq<StoreEvent>, j: int, white: i32, black: i32)
    requires
        w.wf(),
        w.can_step_spec(events[0]),
        events.len() > 0,
        run_accepted(w, events),
        w.next(events[0]).0.stage is RollingBack || w.next(events[0]).0.stage is Done,
        w.next(events[0]).1 is Rollback || w.next(events[0]).1 matches StoreAction::Finish(Err(_)),
        0 <= j < run_actions(w, events).len(),
    ensures
        run_actions(w, events)[j] != StoreAction::Finish(Ok((white, black))),
{
    lemma_split_run(w, events);
    let next = w.next(events[0]).0;
    if j > 0 {
        law_step_keeps_wf(w, events[0]);
        lemma_no_success_after_failure(next, events.drop_first(), j - 1, white, black);
    }
}

proof fn lemma_success_from_committing(
    w: RatingWorkflow,
    events: Seq<StoreEvent>,
    j: int,
    white: i32,
    black: i32,
)
    requires
        w.wf(),
        w.stage is Committing,
        run_accepted(w, events),
        0 <= j < run_actions(w, events).len(),
        run_actions(w, events)[j] == StoreAction::Finish(Ok((white, black))),
    ensures
        white == w.stage->Committing_new_white,
        black == w.stage->Committing_new_black,
{
    lemma_split_run(w, events);
    lemma_done_runs_are_empty(w.next(events[0]).0, events.drop_first());
}

proof fn lemma_success_from_writing_black(
    w: RatingWorkflow,
    events: Seq<StoreEvent>,
    j: int,
    white: i32,
    black: i32,
)
    requires
        w.wf(),
        w.stage is WritingBlack,
        run_accepted(w, events),
        0 <= j < run_actions(w, events).len(),
        run_actions(w, events)[j] == StoreAction::Finish(Ok((white, black))),
    ensures
        white == w.stage->WritingBlack_new_white,
        black == w.stage->WritingBlack_new_black,
{
    lemma_split_run(w, events);
    let next = w.next(events[0]).0;
    law_step_keeps_wf(w, events[0]);
    if events[0] matches StoreEvent::RatingWritten(Err(_)) {
        lemma_failed_step(w, events, j, white, black);
    } else if w.owns_transaction() {
        lemma_success_from_committing(next, events.drop_first(), j - 1, white, black);
    } else {
        lemma_done_runs_are_empty(next, events.drop_first());
    }
}

proof fn lemma_success_from_writing_white(
    w: RatingWorkflow,
    events: Seq<StoreEvent>,
    j: int,
    white: i32,
    black: i32,
)
    requires
        w.wf(),
        w.stage is WritingWhite,
        run_accepted(w, events),
        0 <= j < run_actions(w, events).len(),
        run_actions(w, events)[j] == StoreAction::Finish(Ok((white, black))),
    ensures
        white == w.stage->WritingWhite_new_white,
        black == w.stage->WritingWhite_new_black,
        j > 0,
        run_actions(w, events)[0] == StoreAction::WriteRating(w.stage->WritingWhite_black_id, black),
{
    lemma_split_run(w, events);
    let next = w.next(events[0]).0;
    law_step_keeps_wf(w, events[0]);
    if events[0] matches StoreEvent::RatingWritten(Err(_)) {
        lemma_failed_step(w, events, j, white, black);
    } else {
        lemma_success_from_writing_black(next, events.drop_first(), j - 1, white, black);
    }
}

proof fn lemma_success_from_evaluating(
    w: RatingWorkflow,
    events: Seq<StoreEvent>,
    j: int,
    white: i32,
    black: i32,
)
    requires
        w.wf(),
        w.stage is Evaluating,
        run_accepted(w, events),
        0 <= j < run_actions(w, events).len(),
        run_actions(w, events)[j] == StoreAction::Finish(Ok((white, black))),
    ensures
        j > 1,
        run_actions(w, events)[0] == StoreAction::WriteRating(w.stage->white_id, white),
        run_actions(w, events)[1] == StoreAction::WriteRating(w.stage->Evaluating_black_id, black),
        w.config.admits(white as int),
        w.config.admits(black as int),
{
    lemma_split_run(w, events);
    let next = w.next(events[0]).0;
    law_step_keeps_wf(w, events[0]);
    lemma_success_from_writing_white(next, events.drop_first(), j - 1, white, black);
    lemma_split_run(next, events.drop_first());
}

proof fn lemma_success_from_loading_black(
    w: RatingWorkflow,
    events: Seq<StoreEvent>,
    j: int,
    white: i32,
    black: i32,
)
    requires
        w.wf(),
        w.stage is LoadingBlack,
        run_accepted(w, events),
        0 <= j < run_actions(w, events).len(),
        run_actions(w, events)[j] == StoreAction::Finish(Ok((white, black))),
    ensures
        j > 2,
        events[0] matches StoreEvent::PlayerLoaded(Ok(Some(black_player))) && run_actions(w, events)[2]
            == StoreAction::WriteRating(black_player.id, black),
        run_actions(w, events)[1] == StoreAction::WriteRating(w.stage->white.id, white),
        w.config.admits(white as int),
        w.config.admits(black as int),
{
    lemma_split_run(w, events);
    let next = w.next(events[0]).0;
    law_step_keeps_wf(w, events[0]);
    if events[0] matches StoreEvent::PlayerLoaded(Ok(Some(_))) {
        lemma_success_from_evaluating(next, events.drop_first(), j - 1, white, black);
    } else {
        lemma_failed_step(w, events, j, white, black);
    }
}

proof fn lemma_success_from_loading_white(
    w: RatingWorkflow,
    events: Seq<StoreEvent>,
    j: int,
    white: i32,
    black: i32,
)
    requires
        w.wf(),
        w.stage is LoadingWhite,
        run_accepted(w, events),
        0 <= j < run_actions(w, events).len(),
        run_actions(w, events)[j] == StoreAction::Finish(Ok((white, black))),
    ensures
        j > 3,
        run_actions(w, events)[0] == StoreAction::LoadPlayer(w.stage->black_player),
        events[0] matches StoreEvent::PlayerLoaded(Ok(Some(white_player))) && run_actions(w, events)[2]
            == StoreAction::WriteRating(white_player.id, white),
        events[1] matches StoreEvent::PlayerLoaded(Ok(Some(black_player))) && run_actions(w, events)[3]
            == StoreAction::WriteRating(black_player.id, black),
        w.config.admits(white as int),
        w.config.admits(black as int),
{
    lemma_split_run(w, events);
    let next = w.next(events[0]).0;
    law_step_keeps_wf(w, events[0]);
    if events[0] matches StoreEvent::PlayerLoaded(Ok(Some(_))) {
        lemma_success_from_loading_black(next, events.drop_first(), j - 1, white, black);
        assert(events.drop_first()[0] == events[1]);
    } else {
        lemma_failed_step(w, events, j, white, black);
    }
}

proof fn lemma_success_from_loading_game(
    w: RatingWorkflow,
    events: Seq<StoreEvent>,
    j: int,
    white: i32,
    black: i32,
)
    requires
        w.wf(),
        w.stage is LoadingGame,
        run_accepted(w, events),
        0 <= j < run_actions(w, events).len(),
        run_actions(w, events)[j] == StoreAction::Finish(Ok((white, black))),
    ensures
        rated_and_written(w, events, 0, j, white, black),
{
    lemma_split_run(w, events);
    let next = w.next(events[0]).0;
    law_step_keeps_wf(w, events[0]);
    if events[0] matches StoreEvent::GameLoaded(Ok(Some(game))) && white_outcome_of(game.result) is Ok {
        let rest = events.drop_first();
        lemma_success_from_loading_white(next, rest, j - 1, white, black);
        assert(rest[0] == events[1]);
        assert(rest[1] == events[2]);
    } else {
        lemma_failed_step(w, events, j, white, black);
    }
}

proof fn lemma_rated_and_written_shift(
    w: RatingWorkflow,
    events: Seq<StoreEvent>,
    o: int,
    j: int,
    white: i32,
    black: i32,
)
    requires
        events.len() > 0,
        rated_and_written(w.next(events[0]).0, events.drop_first(), o, j - 1, white, black),
    ensures
        rated_and_written(w, events, o + 1, j, white, black),
{
    lemma_split_run(w, events);
    let rest = events.drop_first();
    assert(o + 4 < j - 1 < rest.len());
    assert(rest[o] == events[o + 1]);
    assert(rest[o + 1] == events[o + 2]);
    assert(rest[o + 2] == events[o + 3]);
}

/// A successful rating update reports exactly the ratings it wrote: whenever a run
/// from a starting workflow finishes with `Ok((white, black))`, it loaded a game with
/// a rated result, loaded its white and then its black player, wrote `white` for the
/// loaded white player and `black` for the loaded black player, both within the
/// bounds, before finishing.
pub proof fn law_success_reports_written_ratings(
    w: RatingWorkflow,
    events: Seq<StoreEvent>,
    j: int,
    white: i32,
    black: i32,
)
    requires
        w.wf(),
        w.stage is Beginning || w.stage is LoadingGame,
        run_accepted(w, events),
        0 <= j < run_actions(w, events).len(),
        run_actions(w, events)[j] == StoreAction::Finish(Ok((white, black))),
    ensures
        exists|o: int| #[trigger] rated_and_written(w, events, o, j, white, black),
{
    if w.stage is LoadingGame {
        lemma_success_from_loading_game(w, events, j, white, black);
        assert(rated_and_written(w, events, 0, j, white, black));
    } else {
        lemma_split_run(w, events);
        let w1 = w.next(events[0]).0;
        let e1 = events.drop_first();
        law_step_keeps_wf(w, events[0]);
        assert(j > 0);
        if events[0] matches StoreEvent::TransactionBegun(Err(_)) {
            lemma_failed_step(w, events, j, white, black);
        } else if w1.stage is LoadingGame {
            lemma_success_from_loading_game(w1, e1, j - 1, white, black);
            lemma_rated_and_written_shift(w, events, 0, j, white, black);
            assert(rated_and_written(w, events, 1, j, white, black));
        } else {
            // Completing a game: check it, store its result, then rate it.
            assert(e1.len() > 0);
            assert(run_accepted(w1, e1));
            assert(w1.can_step_spec(e1[0]) && run_accepted(w1.next(e1[0]).0, e1.drop_first()));
            lemma_split_run(w1, e1);
            let w2 = w1.next(e1[0]).0;
            let e2 = e1.drop_first();
            law_step_keeps_wf(w1, e1[0]);
            if w2.stage is WritingResult {
                assert(j > 1);
                assert(e2.len() > 0);
                assert(w2.can_step_spec(e2[0]) && run_accepted(w2.next(e2[0]).0, e2.drop_first()));
                lemma_split_run(w2, e2);
                let w3 = w2.next(e2[0]).0;
                let e3 = e2.drop_first();
                law_step_keeps_wf(w2, e2[0]);
                if w3.stage is LoadingGame {
                    assert(j > 2);
                    lemma_success_from_loading_game(w3, e3, j - 3, white, black);
                    lemma_rated_and_written_shift(w2, e2, 0, j - 2, white, black);
                    lemma_rated_and_written_shift(w1, e1, 1, j - 1, white, black);
                    lemma_rated_and_written_shift(w, events, 2, j, white, black);
                    assert(rated_and_written(w, events, 3, j, white, black));
                } else {
                    lemma_failed_step(w2, e2, j - 2, white, black);
                }
            } else {
                lemma_failed_step(w1, e1, j - 1, white, black);
            }
        }
    }
}

/// `a` is a prefix of `b`.
pub open spec fn is_prefix(a: Seq<GameRow>, b: Seq<GameRow>) -> bool {
    a.len() <= b.len() && forall|i: int| 0 <= i < a.len() ==> a[i] == b[i]
}

proof fn lemma_select_prefix(rows: Seq<GameRow>, keep: spec_fn(GameRow) -> bool, n: int)
    requires
        0 <= n <= rows.len(),
    ensures
        is_prefix(select(rows.take(n), keep), select(rows, keep)),
    decreases rows.len(),
{
    if n == rows.len() {
        assert(rows.take(n) =~= rows);
    } else {
        assert(rows.take(n) =~= rows.drop_last().take(n));
        lemma_select_prefix(rows.drop_last(), keep, n);
    }
}

proof fn lemma_select_in_order(rows: Seq<GameRow>, keep: spec_fn(GameRow) -> bool)
    requires
        in_list_order(rows),
    ensures
        in_list_order(select(rows, keep)),
        forall|i: int|
            0 <= i < select(rows, keep).len() ==> exists|j: int|
                0 <= j < rows.len() && #[trigger] select(rows, keep)[i] == rows[j],
    decreases rows.len(),
{
    if rows.len() > 0 {
        let before = rows.drop_last();
        assert(in_list_order(before)) by {
            assert forall|i: int, j: int| 0 <= i < j < before.len() implies lists_before(
                #[trigger] before[i].key,
                #[trigger] before[j].key,
            ) by {
                assert(before[i] == rows[i] && before[j] == rows[j]);
            }
        }
        lemma_select_in_order(before, keep);
        let s0 = select(before, keep);
        let s = select(rows, keep);
        assert forall|i: int| 0 <= i < s.len() implies exists|j: int|
            0 <= j < rows.len() && #[trigger] s[i] == rows[j] by {
            if i < s0.len() {
                let j = choose|j: int| 0 <= j < before.len() && s0[i] == before[j];
                assert(s[i] == rows[j]);
            } else {
                assert(s[i] == rows[rows.len() - 1]);
            }
        }
        if keep(rows.last()) {
            assert forall|i: int, j: int| 0 <= i < j < s.len() implies lists_before(
                #[trigger] s[i].key,
                #[trigger] s[j].key,
            ) by {
                if j < s0.len() {
                    assert(s[i] == s0[i] && s[j] == s0[j]);
                } else {
                    let m = choose|m: int| 0 <= m < before.len() && s0[i] == before[m];
                    assert(s[i] == rows[m]);
                    assert(s[j] == rows[rows.len() - 1]);
                }
            }
        }
    }
}

proof fn lemma_position_skips_earlier_rows(
    table: Seq<GameRow>,
    first: ListGamesQuery,
    next: ListGamesQuery,
    k: int,
    n: int,
)
    requires
        in_list_order(table),
        next.player == first.player,
        next.result_filter == first.result_filter,
        0 <= k < matching_rows(first, table).len(),
        next.before == Some(matching_rows(first, table)[k].key),
        0 <= n <= table.len(),
    ensures
        ({
            let a = matching_rows(first, table.take(n));
            selected_rows(next, table.take(n)) == if a.len() <= k + 1 {
                Seq::<GameRow>::empty()
            } else {
                a.skip(k + 1)
            }
        }),
    decreases n,
{
    let t = table.take(n);
    if n == 0 {
        assert(t.len() == 0);
    } else {
        lemma_position_skips_earlier_rows(table, first, next, k, n - 1);
        assert(t.drop_last() =~= table.take(n - 1));
        let x = t.last();
        assert(x == table[n - 1]);
        let m = matching_rows(first, table);
        let a = matching_rows(first, table.take(n - 1));
        assert(filters_admit(next, x) == filters_admit(first, x));
        if filters_admit(first, x) {
            lemma_select_prefix(table, |row: GameRow| filters_admit(first, row), n);
            lemma_select_in_order(table, |row: GameRow| filters_admit(first, row));
            let an = matching_rows(first, t);
            assert(an == a.push(x));
            assert(m[a.len() as int] == x);
            let c = m[k];
            if a.len() > k {
                assert(lists_before(c.key, x.key));
                assert(query_admits(next, x));
                assert(an.skip(k + 1) =~= (if a.len() <= k + 1 {
                    Seq::<GameRow>::empty()
                } else {
                    a.skip(k + 1)
                }).push(x));
            } else if a.len() == k {
                assert(!query_admits(next, x));
            } else {
                assert(lists_before(x.key, c.key));
                assert(!query_admits(next, x));
            }
        } else {
            assert(!query_admits(next, x));
        }
    }
}

/// Keyset paging neither skips nor repeats a game. `table` holds the stored games in
/// list order. The first page takes the first `limit` games that the first query
/// fetches, and its cursor is the key of the last of them (as
/// [`GameService::finish_page`](crate::GameService::finish_page) makes it); the next
/// query has the same filters and continues after that key (as
/// [`GameService::list_games_query`](crate::GameService::list_games_query) reads it
/// back). Then the two pages together are the first games that pass the filters, in
/// list order, with none left out and none twice.
pub proof fn law_pages_neither_skip_nor_repeat(
    table: Seq<GameRow>,
    first: ListGamesQuery,
    next: ListGamesQuery,
    limit: u64,
)
    requires
        in_list_order(table),
        first.before is None,
        first.fetch_limit == limit + 1,
        limit >= 1,
        query_result(first, table).len() > limit,
        next.player == first.player,
        next.result_filter == first.result_filter,
        next.before == Some(query_result(first, table)[limit - 1].key),
        next.fetch_limit == limit + 1,
    ensures
        ({
            let page1 = query_result(first, table).take(limit as int);
            let fetched = query_result(next, table);
            let page2 = if fetched.len() > limit {
                fetched.take(limit as int)
            } else {
                fetched
            };
            page1 + page2 == matching_rows(first, table).take(limit + page2.len())
        }),
{
    let m = matching_rows(first, table);
    assert(selected_rows(first, table) == m) by {
        assert forall|n: int| 0 <= n <= table.len() implies selected_rows(first, table.take(n))
            == matching_rows(first, table.take(n)) by {
            lemma_selected_without_position(table, first, n);
        }
        assert(table.take(table.len() as int) =~= table);
    }
    let k = limit - 1;
    assert(query_result(first, table)[k] == m[k]);
    lemma_position_skips_earlier_rows(table, first, next, k, table.len() as int);
    assert(table.take(table.len() as int) =~= table);
    let page1 = query_result(first, table).take(limit as int);
    let fetched = query_result(next, table);
    let page2 = if fetched.len() > limit {
        fetched.take(limit as int)
    } else {
        fetched
    };
    assert(page1 + page2 =~= m.take(limit + page2.len()));
}

proof fn lemma_selected_without_position(table: Seq<GameRow>, query: ListGamesQuery, n: int)
    requires
        query.before is None,
        0 <= n <= table.len(),
    ensures
        selected_rows(query, table.take(n)) == matching_rows(query, table.take(n)),
    decreases n,
{
    if n > 0 {
        lemma_selected_without_position(table, query, n - 1);
        assert(table.take(n).drop_last() =~= table.take(n - 1));
    }
}

/// What a query fetches passes its filters, lies after its position, comes in list
/// order and is at most `fetch_limit` games.
pub proof fn law_query_result_is_admitted_and_ordered(query: ListGamesQuery, table: Seq<GameRow>)
    requires
        in_list_order(table),
    ensures
        query_result(query, table).len() <= query.fetch_limit,
        in_list_order(query_result(query, table)),
        forall|i: int|
            0 <= i < query_result(query, table).len() ==> query_admits(
                query,
                #[trigger] query_result(query, table)[i],
            ),
{
    let keep = |row: GameRow| query_admits(query, row);
    lemma_select_in_order(table, keep);
    lemma_select_admits(table, keep);
}

proof fn lemma_select_admits(rows: Seq<GameRow>, keep: spec_fn(GameRow) -> bool)
    ensures
        forall|i: int| 0 <= i < select(rows, keep).len() ==> keep(#[trigger] select(rows, keep)[i]),
    decreases rows.len(),
{
    if rows.len() > 0 {
        lemma_select_admits(rows.drop_last(), keep);
        let s0 = select(rows.drop_last(), keep);
        let s = select(rows, keep);
        assert forall|i: int| 0 <= i < s.len() implies keep(#[trigger] s[i]) by {
            if i < s0.len() {
                assert(s[i] == s0[i]);
            }
        }
    }
}

/// The formula asked for carries the configured K-factor, and the players' own
/// ratings in the right roles: a draw keeps white first, a win puts white's rating as
/// the winner's, a loss puts black's.
pub proof fn law_formula_takes_configured_k_and_players_in_their_roles(
    white_rating: i32,
    black_rating: i32,
    white_outcome: GameOutcome,
    k_factor: u32,
)
    ensures
        match rating_formula_spec(white_rating, black_rating, white_outcome, k_factor) {
            RatingFormula::Decisive { k_factor: k, .. } => k == k_factor,
            RatingFormula::Draw { k_factor: k, .. } => k == k_factor,
        },
        white_outcome == GameOutcome::Draw ==> rating_formula_spec(
            white_rating,
            black_rating,
            white_outcome,
            k_factor,
        ) == (RatingFormula::Draw { white_rating, black_rating, k_factor }),
        white_outcome == GameOutcome::Win ==> (rating_formula_spec(
            white_rating,
            black_rating,
            white_outcome,
            k_factor,
        ) matches RatingFormula::Decisive { winner_rating, loser_rating, .. } && winner_rating
            == i32_as_u32(white_rating) && loser_rating == i32_as_u32(black_rating)),
        white_outcome == GameOutcome::Loss ==> (rating_formula_spec(
            white_rating,
            black_rating,
            white_outcome,
            k_factor,
        ) matches RatingFormula::Decisive { winner_rating, loser_rating, .. } && winner_rating
            == i32_as_u32(black_rating) && loser_rating == i32_as_u32(white_rating)),
        white_rating >= 0 && black_rating >= 0 && white_outcome == GameOutcome::Win
            ==> rating_formula_spec(white_rating, black_rating, white_outcome, k_factor)
            == (RatingFormula::Decisive {
            winner_rating: white_rating as u32,
            loser_rating: black_rating as u32,
            k_factor,
        }),
{
}

/// The stored ratings follow the colours: white gets the formula's first answer and
/// black its second, except after a loss, where the formula answered for black first.
/// An answer that already lies within the bounds is stored as it is.
pub proof fn law_ratings_stored_in_colour_order(
    white_outcome: GameOutcome,
    first: u32,
    second: u32,
    config: RatingConfig,
)
    requires
        config.bounds_ordered(),
    ensures
        ({
            let stored = rating_changes_spec(white_outcome, (first, second), config);
            let (for_white, for_black) = if white_outcome == GameOutcome::Loss {
                (second, first)
            } else {
                (first, second)
            };
            &&& stored.0 == clamp_spec(
                u32_as_i32(for_white),
                config.min_rating as int,
                config.max_rating as int,
            )
            &&& stored.1 == clamp_spec(
                u32_as_i32(for_black),
                config.min_rating as int,
                config.max_rating as int,
            )
            &&& config.admits(for_white as int) ==> stored.0 == for_white
            &&& config.admits(for_black as int) ==> stored.1 == for_black
        }),
{
}

/// Once both players are loaded, the workflow asks for the formula on the loaded
/// white player's rating and the loaded black player's rating, in their roles, with
/// the configured K-factor.
pub proof fn law_formula_uses_loaded_ratings(w: RatingWorkflow, black: PlayerRecord)
    requires
        w.wf(),
        w.stage is LoadingBlack,
    ensures
        ({
            let (next, action) = w.next(StoreEvent::PlayerLoaded(Ok(Some(black))));
            let white = w.stage->white;
            let outcome = w.stage->LoadingBlack_white_outcome;
            &&& next.stage == (Stage::Evaluating {
                white_outcome: outcome,
                white_id: white.id,
                black_id: black.id,
            })
            &&& outcome == GameOutcome::Draw ==> action == StoreAction::EvaluateFormula(
                RatingFormula::Draw {
                    white_rating: white.elo_rating,
                    black_rating: black.elo_rating,
                    k_factor: w.config.k_factor,
                },
            )
            &&& outcome == GameOutcome::Win ==> action == StoreAction::EvaluateFormula(
                RatingFormula::Decisive {
                    winner_rating: i32_as_u32(white.elo_rating) as u32,
                    loser_rating: i32_as_u32(black.elo_rating) as u32,
                    k_factor: w.config.k_factor,
                },
            )
            &&& outcome == GameOutcome::Loss ==> action == StoreAction::EvaluateFormula(
                RatingFormula::Decisive {
                    winner_rating: i32_as_u32(black.elo_rating) as u32,
                    loser_rating: i32_as_u32(white.elo_rating) as u32,
                    k_factor: w.config.k_factor,
                },
            )
        }),
{
}

/// After the formula answers, white's new rating is written to the white player and
/// black's kept for the black player, in colour order: the first answer is white's
/// except after a loss; each is clamped to the bounds.
pub proof fn law_evaluated_ratings_written_in_colour_order(
    w: RatingWorkflow,
    first: u32,
    second: u32,
)
    requires
        w.wf(),
        w.stage is Evaluating,
        w.config.bounds_ordered(),
    ensures
        ({
            let (next, action) = w.next(StoreEvent::FormulaEvaluated(first, second));
            let outcome = w.stage->Evaluating_white_outcome;
            let (for_white, for_black) = if outcome == GameOutcome::Loss {
                (second, first)
            } else {
                (first, second)
            };
            let new_white = clamp_spec(
                u32_as_i32(for_white),
                w.config.min_rating as int,
                w.config.max_rating as int,
            );
            let new_black = clamp_spec(
                u32_as_i32(for_black),
                w.config.min_rating as int,
                w.config.max_rating as int,
            );
            &&& action == StoreAction::WriteRating(w.stage->white_id, new_white as i32)
            &&& next.stage == (Stage::WritingWhite {
                black_id: w.stage->Evaluating_black_id,
                new_white: new_white as i32,
                new_black: new_black as i32,
            })
            &&& w.config.admits(for_white as int) ==> action == StoreAction::WriteRating(
                w.stage->white_id,
                for_white as i32,
            )
        }),
{
}

/// Completing a game stores exactly the result it was asked to store, for that game.
pub proof fn law_completion_stores_the_given_result(w: RatingWorkflow, event: StoreEvent)
    requires
        w.wf(),
        w.can_step_spec(event),
    ensures
        w.next(event).1 matches StoreAction::WriteGameResult(game_id, result) ==> game_id == w.game_id
            && w.mode == WorkflowMode::CompleteGame(result),
{
}

/// A stored result decides white's outcome: a white win is a win for white, a black
/// win a loss, a draw a draw; no other result is rated.
pub proof fn law_stored_result_decides_white_outcome(result: Option<crate::workflow::ResultSide>)
    ensures
        result == Some(crate::workflow::ResultSide::WhiteWins) <==> white_outcome_of(result)
            == Ok::<GameOutcome, RatingFailure>(GameOutcome::Win),
        result == Some(crate::workflow::ResultSide::BlackWins) <==> white_outcome_of(result)
            == Ok::<GameOutcome, RatingFailure>(GameOutcome::Loss),
        result == Some(crate::workflow::ResultSide::Draw) <==> white_outcome_of(result)
            == Ok::<GameOutcome, RatingFailure>(GameOutcome::Draw),
{
}

} // verus!
