//! Decision core of the Sentinella daemon.
//!
//! Everything the daemon decides stands here and is verified: who may connect
//! and how often, which request is answered and how, when a scan may start and
//! what it reports, how memory pressure is classified and when the scanner
//! yields to the user.

pub mod activity;
pub mod boot;
pub mod config;
pub mod engine;
pub mod footprint;
pub mod idle_scanner;
pub mod ipc;
pub mod memory_scanner;
pub mod quarantine;
pub mod ranking;
pub mod resilience;
pub mod scan;
pub mod stats;
pub mod telemetry;
pub mod text;
pub mod update;
pub mod watch;
