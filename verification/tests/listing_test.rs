use chess_rating::{GameKey, GameService, GameStatus, ResultFilter};

#[test]
fn list_query_filters_by_player_and_fetches_one_extra() {
    let player = 0x1234u128;
    let query = GameService::list_games_query(None, 10, Some(player), None);
    assert_eq!(query.player, Some(player));
    assert_eq!(query.result_filter, None);
    assert_eq!(query.before, None);
    assert_eq!(query.fetch_limit, 11);
}

#[test]
fn list_query_maps_status_to_result_filter() {
    let active = [GameStatus::Waiting, GameStatus::InProgress];
    let finished = [GameStatus::Completed, GameStatus::Aborted];
    for s in active {
        assert_eq!(GameService::list_games_query(None, 5, None, Some(s)).result_filter, Some(ResultFilter::Unfinished));
    }
    for s in finished {
        assert_eq!(GameService::list_games_query(None, 5, None, Some(s)).result_filter, Some(ResultFilter::Finished));
    }
}

#[test]
fn list_query_continues_after_the_cursor_and_ignores_a_bad_one() {
    let cursor = GameService::encode_cursor(1_700_000_000_000_000, 99);
    let query = GameService::list_games_query(Some(cursor), 10, None, None);
    assert_eq!(query.before, Some(GameKey { created_at_micros: 1_700_000_000_000_000, id: 99 }));
    let query = GameService::list_games_query(Some("garbage".to_string()), 10, None, None);
    assert_eq!(query.before, None);
}

fn keys(n: usize) -> Vec<GameKey> {
    (0..n).map(|i| GameKey { created_at_micros: 1000 - i as i64, id: i as u128 }).collect()
}

#[test]
fn finish_page_truncates_and_points_at_the_last_kept_game() {
    let games: Vec<&str> = vec!["a", "b", "c", "d"];
    let (page, next) = GameService::finish_page(games, &keys(4), 3);
    assert_eq!(page, vec!["a", "b", "c"]);
    let next = next.expect("a next page");
    assert_eq!(next, GameService::encode_cursor(998, 2));
    let query = GameService::list_games_query(Some(next), 3, None, None);
    assert_eq!(query.before, Some(GameKey { created_at_micros: 998, id: 2 }));
}

#[test]
fn finish_page_without_more_games_has_no_cursor() {
    let (page, next) = GameService::finish_page(vec![1, 2, 3], &keys(3), 3);
    assert_eq!(page, vec![1, 2, 3]);
    assert_eq!(next, None);
    let (page, next) = GameService::finish_page(vec![1, 2], &keys(2), 0);
    assert!(page.is_empty());
    assert_eq!(next, None);
}
