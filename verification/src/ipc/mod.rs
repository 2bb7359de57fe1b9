//! The request side of the daemon: admission, rate limits and dispatch.

pub mod client_auth;
pub mod events;
pub mod fairness;
pub mod policy;
pub mod rate;
pub mod runtime;
pub mod settings;
pub mod state;
pub mod auth;
pub mod params;
pub mod dispatch;
pub mod laws;
pub mod frame;
pub mod critical;
