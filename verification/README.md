# trading_apps

The decision logic of a set of trading tasks, written in Verus: paper owners for
grids, volume making and two-leg arbitrage, their sagas, a guarded live order
lifecycle, a spread monitor, a virtual-grid scanner and the profiles that start
them.

Nothing in `src/` talks to a venue, a clock or a disk. Each task is a state machine
that asks for one action at a time (`Append`, `Submit`, `Reserve`, `Wait`, ...) and
is handed what came of it. `app/` performs the actions.

## Layout

- `src/decimal.rs`, `timestamp.rs`, `ids.rs`, `json.rs`, `text.rs`, `domain.rs`,
  `requests.rs`: the values that everything else speaks of.
- `src/live_lifecycle.rs`, `live_projection.rs`, `live_run.rs`: one live order from
  its admission to its proven cancellation, and what a journal says of it;
  `live_readback.rs` and `live_laws.rs` tie the two together, and
  `live_campaign.rs` speaks of all runs on one journal.
- `src/paper_single_leg_saga.rs`, `paper_arbitrage_saga.rs`, `paper_admission.rs`,
  `saga_records.rs`, `saga_laws.rs`: operations that reserve, record, execute and settle.
- `src/paper_account.rs`, `operations.rs`, `operation_run.rs`, `owner_inputs.rs`,
  `paper_task.rs`, `task_start.rs`, `task_handle.rs`, `capacity_retention.rs`: what
  the owners share.
- `src/paper_grid_task.rs`, `grid_owner.rs`, `grid_laws.rs`: the grid owner.
- `src/paper_volume_maker_task.rs`, `volume_owner.rs`, `volume_laws.rs`: the
  volume-maker owner.
- `src/paper_arbitrage_task.rs`, `arbitrage_account.rs`, `arbitrage_plan.rs`,
  `arbitrage_owner.rs`, `arbitrage_laws.rs`: the arbitrage owner.
- `src/paper_bar_task.rs`, `paper_profile.rs`, `replay_mirror.rs`, `monitor.rs`,
  `replay.rs`, `scanner.rs`, `scan_report.rs`, `shutdown.rs`: bars, profiles,
  replays, scans and signals.
- `tests/`: scenarios on concrete values.
- `app/`: arguments, files, signals and the loops around the state machines.

## What is trusted

The functions marked `#[verifier::external_body]` in `decimal.rs`, `ids.rs`,
`json.rs`, `timestamp.rs` and `replay.rs` call `rust_decimal`, `uuid`, `serde_json`
and `chrono`. Their doc comments say what is believed of those crates.
