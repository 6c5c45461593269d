//! Decision logic of a service-uptime monitor: the JSON configuration model,
//! the checkers' settings and verdicts, incident tracking, worker scheduling,
//! the HTTP API's parameter handling, and the status provider's calendar
//! and response framing.
pub mod api;
pub mod checkers;
pub mod incidents;
pub mod json;
pub mod provider;
pub mod scheduler;
pub mod text;
