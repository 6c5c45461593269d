//! A database reachability checker: connect, run a probe query, time it.
use vstd::prelude::*;
use vstd::string::*;
use crate::json::{member, string_of_value, u64_of_value, JsonValue};
use super::{
    failed_output, is_down_with, is_invalid_config, latency_status, latency_verdict, optional_str,
    required_str, CheckOutput, ConfigError,
};

verus! {

/// Probes a database with a query.
#[derive(Debug)]
pub struct DatabaseChecker {
    pub connection_string: String,
    pub probe_query: String,
    pub degraded_ms: Option<u64>,
    pub timeout_ms: u64,
}

/// Whether `r` is the result of reading a `DatabaseChecker` configuration from `config`.
pub open spec fn database_settings(config: JsonValue, r: Result<DatabaseChecker, ConfigError>) -> bool {
    match string_of_value(member(config, "connection_string"@)) {
        None => r matches Err(e) && is_invalid_config(
            e,
            "database checker requires 'connection_string'"@,
        ),
        Some(cs) => r matches Ok(c) && {
            &&& c.connection_string@ == cs
            &&& c.probe_query@ == match string_of_value(member(config, "probe_query"@)) {
                Some(q) => q,
                None => "SELECT 1"@,
            }
            &&& c.degraded_ms == u64_of_value(member(config, "degraded_ms"@))
            &&& c.timeout_ms == match u64_of_value(member(config, "timeout_ms"@)) {
                Some(t) => t,
                None => 10_000,
            }
        },
    }
}

impl DatabaseChecker {
    /// Reads the checker's settings: `connection_string` (required),
    /// `probe_query` (default `SELECT 1`), `degraded_ms`, `timeout_ms`
    /// (default 10000).
    pub fn from_config(config: &JsonValue) -> (r: Result<DatabaseChecker, ConfigError>)
        ensures
            database_settings(*config, r),
    {
        let connection_string = required_str(
            config,
            "connection_string",
            "database checker requires 'connection_string'",
        )?;
        let probe_query = match optional_str(config, "probe_query") {
            Some(q) => q,
            None => String::from_str("SELECT 1"),
        };
        let degraded_ms = config.get_u64("degraded_ms");
        let timeout_ms = match config.get_u64("timeout_ms") {
            Some(t) => t,
            None => 10_000,
        };
        Ok(DatabaseChecker { connection_string, probe_query, degraded_ms, timeout_ms })
    }

    /// The verdict of one probe that took `elapsed_ms`: `None` when it did not
    /// finish within `timeout_ms`, otherwise whether the query ran.
    pub fn outcome(&self, probe: Option<Result<(), String>>, elapsed_ms: u64) -> (r: CheckOutput)
        ensures
            match probe {
                None => is_down_with(r, Some(elapsed_ms), "connection timed out"@),
                Some(Err(e)) => is_down_with(r, Some(elapsed_ms), e@),
                Some(Ok(())) => {
                    &&& r.status == latency_verdict(self.degraded_ms, elapsed_ms)
                    &&& r.response_ms == Some(elapsed_ms)
                    &&& r.detail is None
                    &&& r.error_message is None
                },
            },
    {
        match probe {
            None => failed_output(Some(elapsed_ms), String::from_str("connection timed out")),
            Some(Err(e)) => failed_output(Some(elapsed_ms), e),
            Some(Ok(())) => CheckOutput {
                status: latency_status(self.degraded_ms, elapsed_ms),
                response_ms: Some(elapsed_ms),
                detail: None,
                error_message: None,
            },
        }
    }
}

} // verus!
