# game_engine

Werewolf game logic as a verified library.

- `src/types.rs` — players, roles, teams, kill methods.
- `src/roles/` — one file per role implementing `RoleBehavior`; `mod.rs`
  states every role's night and day behavior as the spec functions
  `night_outcome` / `day_outcome`, `dispatch.rs` routes a `Role` to its
  behavior, `lovers.rs` models lover links, `laws.rs` proves properties
  shared by all roles.
- `src/orchestrator.rs` — the night as a state machine (`NightResolution`):
  which player is asked what, in dependency order, and the wolves' vote
  tally (`majority_eat_target`).
- `src/night_laws.rs` — what a whole night does whatever the answers: the
  questions it asks and their order, how its actions accumulate, and which
  role states it touches.
- `src/game.rs` — the game loop's decisions as steps (`first_step`,
  `after_phase`: night, day, next round, stop at the first team win or at
  the round cap) and the bookkeeping between phases (survivors, player
  standings, which win-check outcomes end the game).
- `src/i18n.rs` — language files: XML events read with `quick_xml`, then
  interpreted by the verified `parse_events`; which directory entries are
  language files (`language_name`).
- `src/control.rs` — admission arithmetic and restart modes.
- `app/` — the asynchronous presenter, the night driver and the round loop, file loading,
  memory readings and shutdown signals.
