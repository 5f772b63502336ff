//! Verified core of an eBPF host telemetry agent: the shared event ABI, the
//! process table, event normalization, file filtering, persistence and port
//! detections, rule evaluation, rate limiting and configuration validation.
pub mod abi;
pub mod text;
pub mod config;
pub mod normalize;
pub mod rules;
pub mod detections;
pub mod process_table;
pub mod dispatch;
pub mod privilege;
pub mod health;
pub mod rate_limiter;
pub mod scenarios;
pub mod agent;
pub mod logging;
pub mod probes;
