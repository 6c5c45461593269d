//! A checker that runs a query producing chart rows (label, value, color).
//! Decoding the rows is done by the database layer; the values are
//! floating-point and stay there.
use vstd::prelude::*;
use crate::json::{member, string_of_value, u64_of_value, JsonValue};
use super::{is_invalid_config, required_str, ConfigError};

verus! {

/// Runs a chart query against a PostgreSQL database.
#[derive(Debug)]
pub struct ChartQueryChecker {
    pub connection_string: String,
    pub query: String,
    pub timeout_ms: Option<u64>,
}

/// Whether `r` is the result of reading a `ChartQueryChecker` configuration from `config`.
pub open spec fn chart_query_settings(config: JsonValue, r: Result<ChartQueryChecker, ConfigError>) -> bool {
    match (
        string_of_value(member(config, "connection_string"@)),
        string_of_value(member(config, "query"@)),
    ) {
        (None, _) => r matches Err(e) && is_invalid_config(
            e,
            "chart_query requires 'connection_string'"@,
        ),
        (Some(_), None) => r matches Err(e) && is_invalid_config(e, "chart_query requires 'query'"@),
        (Some(c), Some(q)) => r matches Ok(ch) && {
            &&& ch.connection_string@ == c
            &&& ch.query@ == q
            &&& ch.timeout_ms == u64_of_value(member(config, "timeout_ms"@))
        },
    }
}

impl ChartQueryChecker {
    /// Reads the checker's settings: `connection_string` and `query`
    /// (required), `timeout_ms`.
    pub fn from_config(config: &JsonValue) -> (r: Result<ChartQueryChecker, ConfigError>)
        ensures
            chart_query_settings(*config, r),
    {
        let connection_string = required_str(
            config,
            "connection_string",
            "chart_query requires 'connection_string'",
        )?;
        let query = required_str(config, "query", "chart_query requires 'query'")?;
        let timeout_ms = config.get_u64("timeout_ms");
        Ok(ChartQueryChecker { connection_string, query, timeout_ms })
    }

    /// The query deadline in milliseconds (10000 unless configured).
    pub fn effective_timeout_ms(&self) -> (r: u64)
        ensures
            r == match self.timeout_ms {
                Some(t) => t,
                None => 10_000,
            },
    {
        match self.timeout_ms {
            Some(t) => t,
            None => 10_000,
        }
    }
}

} // verus!
