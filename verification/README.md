# chess_rating

Elo rating updates for finished chess games, verified with Verus.

- `src/rating.rs` – rating configuration, the choice of Elo formula for a game
  outcome, clamping of new ratings, draw updates.
- `src/workflow.rs` – the transactional rating update as a state machine: it
  decides each step (load the game, load both players, evaluate the formula, write
  both ratings, commit or roll back) and its caller performs the database work.
- `src/failure.rs`, `src/error.rs` – failures and the client-facing errors and
  messages they become.
- `src/lookup.rs` – single rating and game lookups.
- `src/games.rs`, `src/cursor.rs`, `src/decimal.rs` – keyset pagination of the game
  list and its opaque cursors.
- `src/codec.rs` – the calls into `base64`, `uuid`, `chrono` and std that the
  cursors rely on, with the contracts assumed of them.
- `src/laws.rs` – properties that hold across calls.
- `app/` – the database side (SeaORM queries, transactions, migrations) and the
  floating-point Elo evaluation.
