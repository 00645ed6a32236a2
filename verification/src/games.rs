use vstd::prelude::*;

use crate::codec::utc_micros_representable;
use crate::cursor::{decode_cursor_spec, encode_cursor_spec};

verus! {

/// Service for listing and completing games.
pub struct GameService;

/// The status a game list can be filtered by.
#[derive(Debug, Clone, Copy, PartialEq, Eq, Structural)]
pub enum GameStatus {
    Waiting,
    InProgress,
    Completed,
    Aborted,
}

/// How a status filter reads the stored result: an active game has none yet, a
/// finished one has one.
#[derive(Debug, Clone, Copy, PartialEq, Eq, Structural)]
pub enum ResultFilter {
    /// Only games whose result is not set.
    Unfinished,
    /// Only games whose result is set.
    Finished,
}

/// The position of a game in the list order: newest first, ties broken by the
/// larger id first.
#[derive(Debug, Clone, Copy, PartialEq, Eq, Structural)]
pub struct GameKey {
    pub created_at_micros: i64,
    pub id: u128,
}

/// The query for one page of the game list.
#[derive(Debug, Clone, Copy)]
pub struct ListGamesQuery {
    /// Only games that this player plays, with white or with black.
    pub player: Option<u128>,
    /// Only games whose result is (or is not) set.
    pub result_filter: Option<ResultFilter>,
    /// Only games after this one in list order: created earlier, or at the same time
    /// with a smaller id.
    pub before: Option<GameKey>,
    /// How many games to fetch at most, in list order: one more than the page holds,
    /// to learn whether another page follows.
    pub fetch_limit: u64,
}

/// What the list query reads of a stored game.
#[derive(Debug, Clone, Copy)]
pub struct GameRow {
    pub key: GameKey,
    pub white_player: u128,
    pub black_player: u128,
    pub has_result: bool,
}

/// `a` comes before `b` in list order (`created_at DESC, id DESC`): created later,
/// or at the same time with a larger id.
pub open spec fn lists_before(a: GameKey, b: GameKey) -> bool {
    a.created_at_micros > b.created_at_micros || (a.created_at_micros == b.created_at_micros
        && a.id > b.id)
}

/// `key` lies after the position `before` (anywhere, without one):
/// `created_at < before.created_at OR (created_at = before.created_at AND id < before.id)`.
pub open spec fn after_position(key: GameKey, before: Option<GameKey>) -> bool {
    match before {
        None => true,
        Some(position) => lists_before(position, key),
    }
}

/// The row passes the query's player and result filters.
pub open spec fn filters_admit(query: ListGamesQuery, row: GameRow) -> bool {
    &&& query.player matches Some(p) ==> row.white_player == p || row.black_player == p
    &&& query.result_filter matches Some(ResultFilter::Unfinished) ==> !row.has_result
    &&& query.result_filter matches Some(ResultFilter::Finished) ==> row.has_result
}

/// The row is one the query selects: it passes the filters and lies after the position.
pub open spec fn query_admits(query: ListGamesQuery, row: GameRow) -> bool {
    filters_admit(query, row) && after_position(row.key, query.before)
}

/// The rows are in list order, each strictly before the next.
pub open spec fn in_list_order(rows: Seq<GameRow>) -> bool {
    forall|i: int, j: int| 0 <= i < j < rows.len() ==> lists_before(#[trigger] rows[i].key, #[trigger] rows[j].key)
}

/// The rows of `rows` that satisfy `keep`, in their order.
pub open spec fn select(rows: Seq<GameRow>, keep: spec_fn(GameRow) -> bool) -> Seq<GameRow>
    decreases rows.len(),
{
    if rows.len() == 0 {
        Seq::empty()
    } else if keep(rows.last()) {
        select(rows.drop_last(), keep).push(rows.last())
    } else {
        select(rows.drop_last(), keep)
    }
}

/// The rows of `table` (in list order) that pass the query's filters, ignoring its position.
pub open spec fn matching_rows(query: ListGamesQuery, table: Seq<GameRow>) -> Seq<GameRow> {
    select(table, |row: GameRow| filters_admit(query, row))
}

/// The rows of `table` (in list order) that the query selects, in their order.
pub open spec fn selected_rows(query: ListGamesQuery, table: Seq<GameRow>) -> Seq<GameRow> {
    select(table, |row: GameRow| query_admits(query, row))
}

/// What the query fetches from `table` (in list order): the rows it selects, in list
/// order, at most `fetch_limit` of them.
pub open spec fn query_result(query: ListGamesQuery, table: Seq<GameRow>) -> Seq<GameRow> {
    let selected = selected_rows(query, table);
    if selected.len() <= query.fetch_limit {
        selected
    } else {
        selected.take(query.fetch_limit as int)
    }
}

/// The result filter for a status.
pub open spec fn status_filter(status: GameStatus) -> ResultFilter {
    match status {
        GameStatus::Waiting | GameStatus::InProgress => ResultFilter::Unfinished,
        GameStatus::Completed | GameStatus::Aborted => ResultFilter::Finished,
    }
}

/// Where a page continues after `cursor`: the key it was made from, or nowhere
/// (from the start) when it cannot be read.
pub open spec fn cursor_position(cursor: Option<String>) -> Option<GameKey> {
    match cursor {
        None => None,
        Some(c) => match decode_cursor_spec(c@) {
            Ok((micros, id)) => Some(GameKey { created_at_micros: micros, id }),
            Err(_) => None,
        },
    }
}

impl GameService {
    /// The query for a page of at most `limit` games after `cursor`, optionally only
    /// of one player's games and of games with one status. A cursor that cannot be
    /// read is ignored.
    pub fn list_games_query(
        cursor: Option<String>,
        limit: u64,
        player_id: Option<u128>,
        status: Option<GameStatus>,
    ) -> (query: ListGamesQuery)
        requires
            limit < u64::MAX,
        ensures
            query.player == player_id,
            query.result_filter == match status {
                Some(s) => Some(status_filter(s)),
                None => None,
            },
            query.before == cursor_position(cursor),
            query.fetch_limit == limit + 1,
            forall|key: GameKey|
                cursor matches Some(c) && #[trigger] encode_cursor_spec(key.created_at_micros, key.id)
                    == c@ && utc_micros_representable(key.created_at_micros) ==> query.before
                    == Some(key),
    {
        let result_filter = match status {
            Some(GameStatus::Waiting) | Some(GameStatus::InProgress) => Some(ResultFilter::Unfinished),
            Some(GameStatus::Completed) | Some(GameStatus::Aborted) => Some(ResultFilter::Finished),
            None => None,
        };
        let before = match cursor {
            None => None,
            Some(c) => match Self::decode_cursor(c.as_str()) {
                Ok((micros, id)) => Some(GameKey { created_at_micros: micros, id }),
                Err(_) => None,
            },
        };
        ListGamesQuery { player: player_id, result_filter, before, fetch_limit: limit + 1 }
    }

    /// The page from the games fetched with [`GameService::list_games_query`]
    /// (`keys[i]` is the list position of `games[i]`): at most `limit` games, and a
    /// cursor for the next page when more were fetched.
    pub fn finish_page<T>(games: Vec<T>, keys: &Vec<GameKey>, limit: u64) -> (page: (
        Vec<T>,
        Option<String>,
    ))
        requires
            games@.len() == keys@.len(),
        ensures
            games@.len() > limit ==> page.0@ == games@.subrange(0, limit as int),
            games@.len() <= limit ==> page.0@ == games@,
            games@.len() > limit && limit > 0 ==> page.1 is Some && page.1->Some_0@ == encode_cursor_spec(
                keys@[limit - 1].created_at_micros,
                keys@[limit - 1].id,
            ),
            games@.len() <= limit || limit == 0 ==> page.1 is None,
    {
        let mut games = games;
        if games.len() as u64 > limit {
            let keep = limit as usize;
            games.truncate(keep);
            if keep > 0 {
                let last = keys[keep - 1];
                let next = Self::encode_cursor(last.created_at_micros, last.id);
                (games, Some(next))
            } else {
                (games, None)
            }
        } else {
            (games, None)
        }
    }
}

} // verus!
