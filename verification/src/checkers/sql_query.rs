//! A checker that runs a scalar SQL query and grades the number it returns
//! against optional "down" and "degraded" thresholds. Comparing the number
//! with the thresholds is floating-point work and is left to the caller.
use vstd::prelude::*;
use vstd::string::*;
use crate::json::{member, number_of_value, string_of_value, u64_of_value, JsonNumber, JsonValue};
use super::{is_invalid_config, required_str, CheckStatus, ConfigError};

verus! {

/// Bounds a query result is tested against; each bound that is present must
/// hold for the threshold to match.
#[derive(Debug, Clone, Copy)]
pub struct Threshold {
    pub gt: Option<JsonNumber>,
    pub lt: Option<JsonNumber>,
    pub gte: Option<JsonNumber>,
    pub lte: Option<JsonNumber>,
    pub eq: Option<JsonNumber>,
    pub neq: Option<JsonNumber>,
}

/// The threshold a configuration member describes: none when the member is
/// absent or `null`, otherwise its numeric `gt`, `lt`, `gte`, `lte`, `eq`,
/// `neq` bounds.
pub open spec fn threshold_of(v: Option<JsonValue>) -> Option<Threshold> {
    match v {
        None => None,
        Some(JsonValue::Null) => None,
        Some(x) => Some(
            Threshold {
                gt: number_of_value(member(x, "gt"@)),
                lt: number_of_value(member(x, "lt"@)),
                gte: number_of_value(member(x, "gte"@)),
                lte: number_of_value(member(x, "lte"@)),
                eq: number_of_value(member(x, "eq"@)),
                neq: number_of_value(member(x, "neq"@)),
            },
        ),
    }
}

impl Threshold {
    /// Reads a threshold from a configuration member (`None` when absent).
    pub fn from_value(v: Option<&JsonValue>) -> (r: Option<Threshold>)
        ensures
            r == threshold_of(match v { Some(x) => Some(*x), None => None }),
    {
        match v {
            None => None,
            Some(x) => if x.is_null() {
                None
            } else {
                Some(
                    Threshold {
                        gt: x.get_number("gt"),
                        lt: x.get_number("lt"),
                        gte: x.get_number("gte"),
                        lte: x.get_number("lte"),
                        eq: x.get_number("eq"),
                        neq: x.get_number("neq"),
                    },
                )
            },
        }
    }
}

/// Runs a query returning one number and grades it.
#[derive(Debug)]
pub struct SqlQueryChecker {
    pub driver: String,
    pub connection_string: String,
    pub query: String,
    pub down_threshold: Option<Threshold>,
    pub degraded_threshold: Option<Threshold>,
    pub timeout_ms: Option<u64>,
}

/// The database engines a query can be run on.
#[derive(Debug, Clone, Copy, PartialEq, Eq, Structural)]
pub enum SqlDriver {
    Sqlite,
    Postgres,
}

/// The engine a driver name selects: `sqlite`, or `postgresql`/`postgres`.
pub open spec fn driver_of(name: Seq<char>) -> Option<SqlDriver> {
    if name == "sqlite"@ {
        Some(SqlDriver::Sqlite)
    } else if name == "postgresql"@ || name == "postgres"@ {
        Some(SqlDriver::Postgres)
    } else {
        None
    }
}

/// Whether `r` is the result of reading a `SqlQueryChecker` configuration from `config`.
pub open spec fn sql_query_settings(config: JsonValue, r: Result<SqlQueryChecker, ConfigError>) -> bool {
    match (
        string_of_value(member(config, "driver"@)),
        string_of_value(member(config, "connection_string"@)),
        string_of_value(member(config, "query"@)),
    ) {
        (None, _, _) => r matches Err(e) && is_invalid_config(e, "sql_query checker requires 'driver'"@),
        (Some(_), None, _) => r matches Err(e) && is_invalid_config(
            e,
            "sql_query checker requires 'connection_string'"@,
        ),
        (Some(_), Some(_), None) => r matches Err(e) && is_invalid_config(
            e,
            "sql_query checker requires 'query'"@,
        ),
        (Some(d), Some(c), Some(q)) => r matches Ok(ch) && {
            &&& ch.driver@ == d
            &&& ch.connection_string@ == c
            &&& ch.query@ == q
            &&& ch.down_threshold == threshold_of(member(config, "down_threshold"@))
            &&& ch.degraded_threshold == threshold_of(member(config, "degraded_threshold"@))
            &&& ch.timeout_ms == u64_of_value(member(config, "timeout_ms"@))
        },
    }
}

impl SqlQueryChecker {
    /// Reads the checker's settings: `driver`, `connection_string` and
    /// `query` (all required), `down_threshold`, `degraded_threshold`,
    /// `timeout_ms`.
    pub fn from_config(config: &JsonValue) -> (r: Result<SqlQueryChecker, ConfigError>)
        ensures
            sql_query_settings(*config, r),
    {
        let driver = required_str(config, "driver", "sql_query checker requires 'driver'")?;
        let connection_string = required_str(
            config,
            "connection_string",
            "sql_query checker requires 'connection_string'",
        )?;
        let query = required_str(config, "query", "sql_query checker requires 'query'")?;
        let down_threshold = Threshold::from_value(config.get("down_threshold"));
        let degraded_threshold = Threshold::from_value(config.get("degraded_threshold"));
        let timeout_ms = config.get_u64("timeout_ms");
        Ok(SqlQueryChecker { driver, connection_string, query, down_threshold, degraded_threshold, timeout_ms })
    }

    /// The query deadline in milliseconds (10000 unless configured).
    pub fn effective_timeout_ms(&self) -> (r: u64)
        ensures
            r == match self.timeout_ms {
                Some(t) => t,
                None => 10_000,
            },
    {
        match self.timeout_ms {
            Some(t) => t,
            None => 10_000,
        }
    }

    /// The engine to run the query on, or the error reported for an
    /// unsupported driver name.
    pub fn select_driver(&self) -> (r: Result<SqlDriver, String>)
        ensures
            match driver_of(self.driver@) {
                Some(d) => r == Ok::<SqlDriver, String>(d),
                None => r matches Err(m) && m@ == "Unsupported database driver: "@ + self.driver@,
            },
    {
        let d = self.driver.as_str();
        if crate::text::str_eq(d, "sqlite") {
            Ok(SqlDriver::Sqlite)
        } else if crate::text::str_eq(d, "postgresql") || crate::text::str_eq(d, "postgres") {
            Ok(SqlDriver::Postgres)
        } else {
            let mut m = String::from_str("Unsupported database driver: ");
            m.append(d);
            Err(m)
        }
    }
}

/// The verdict of a query value: down when the down threshold matches,
/// else degraded when the degraded threshold matches, else up.
pub open spec fn graded_status(down_matches: bool, degraded_matches: bool) -> CheckStatus {
    if down_matches {
        CheckStatus::Down
    } else if degraded_matches {
        CheckStatus::Degraded
    } else {
        CheckStatus::Up
    }
}

/// Law: a matching down threshold makes the value down whatever the
/// degraded threshold says; the value is degraded exactly when only the
/// degraded threshold matches, and up exactly when neither matches.
pub proof fn lemma_down_threshold_dominates(degraded_matches: bool)
    ensures
        graded_status(true, degraded_matches) == CheckStatus::Down,
        graded_status(false, true) == CheckStatus::Degraded,
        graded_status(false, false) == CheckStatus::Up,
        forall|d: bool, g: bool|
            (#[trigger] graded_status(d, g) == CheckStatus::Degraded) == (!d && g),
{
}

/// Computes `graded_status` from whether each configured threshold matched
/// (an absent threshold never matches).
pub fn grade(down_matches: bool, degraded_matches: bool) -> (r: CheckStatus)
    ensures
        r == graded_status(down_matches, degraded_matches),
        down_matches ==> r == CheckStatus::Down,
        (r == CheckStatus::Degraded) == (!down_matches && degraded_matches),
        (r == CheckStatus::Up) == (!down_matches && !degraded_matches),
{
    if down_matches {
        CheckStatus::Down
    } else if degraded_matches {
        CheckStatus::Degraded
    } else {
        CheckStatus::Up
    }
}

} // verus!
