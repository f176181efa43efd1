//! Verified trading applications: the durable owners, sagas, monitors and
//! scanners of a trading system, written as plain decisions over plain values.

pub mod arbitrage_account;
pub mod arbitrage_laws;
pub mod arbitrage_owner;
pub mod arbitrage_plan;
pub mod arbitrage_step_laws;
pub mod call_laws;
pub mod capacity_retention;
pub mod cycle_laws;
pub mod decimal;
pub mod domain;
pub mod failure_laws;
pub mod grid_laws;
pub mod grid_owner;
pub mod grid_step_laws;
pub mod hedge_laws;
pub mod ids;
pub mod input_laws;
pub mod json;
pub mod liquidity_laws;
pub mod live_campaign;
pub mod live_laws;
pub mod live_lifecycle;
pub mod live_order_laws;
pub mod live_projection;
pub mod live_readback;
pub mod live_run;
pub mod monitor;
pub mod number_laws;
pub mod operation_run;
pub mod operations;
pub mod owner_inputs;
pub mod order_laws;
pub mod paper_account;
pub mod paper_admission;
pub mod paper_arbitrage_saga;
pub mod paper_arbitrage_task;
pub mod paper_bar_task;
pub mod paper_grid_task;
pub mod paper_profile;
pub mod paper_single_leg_saga;
pub mod paper_task;
pub mod paper_volume_maker_task;
pub mod position_laws;
pub mod profile_laws;
pub mod receipt_laws;
pub mod record_laws;
pub mod replay;
pub mod replay_laws;
pub mod replay_mirror;
pub mod requests;
pub mod saga_laws;
pub mod saga_records;
pub mod scan_laws;
pub mod scan_report;
pub mod scanner;
pub mod shutdown;
pub mod task_handle;
pub mod task_laws;
pub mod task_start;
pub mod text;
pub mod time_laws;
pub mod timestamp;
pub mod volume_laws;
pub mod volume_owner;
pub mod volume_step_laws;
