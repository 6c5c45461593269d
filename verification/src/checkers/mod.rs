//! Service checkers: how each kind of service is configured, and how the
//! outcome of one probe becomes a check verdict.
use vstd::prelude::*;
use vstd::string::*;
use crate::json::{member, string_of_value, JsonValue};
use crate::text::{is_prefix, has_prefix, push_decimal, decimal, str_eq};
use aws_billing::{aws_billing_settings, AwsBillingChecker};
use chart_query::{chart_query_settings, ChartQueryChecker};
use database::{database_settings, DatabaseChecker};
use http::{http_settings, HttpChecker};
use http_body::{http_body_settings, HttpBodyChecker};
use php_site::{php_site_settings, PhpSiteChecker};
use preflight::{preflight_settings, PreflightChecker};
use sql_query::{sql_query_settings, SqlQueryChecker};

pub mod aws_billing;
pub mod chart_query;
pub mod database;
pub mod http;
pub mod http_body;
pub mod php_site;
pub mod preflight;
pub mod sql_query;

verus! {

/// The health verdict of one check.
#[derive(Clone, Copy, Debug, PartialEq, Eq, Structural)]
pub enum CheckStatus {
    Up,
    Degraded,
    Down,
}

/// The text stored for a status: `"up"`, `"degraded"` or `"down"`.
pub open spec fn status_text(s: CheckStatus) -> Seq<char> {
    match s {
        CheckStatus::Up => "up"@,
        CheckStatus::Degraded => "degraded"@,
        CheckStatus::Down => "down"@,
    }
}

impl CheckStatus {
    /// The text stored for this status.
    pub fn as_str(&self) -> (r: &'static str)
        ensures
            r@ == status_text(*self),
    {
        match self {
            CheckStatus::Up => "up",
            CheckStatus::Degraded => "degraded",
            CheckStatus::Down => "down",
        }
    }
}

/// The result of one check.
#[derive(Debug)]
pub struct CheckOutput {
    pub status: CheckStatus,
    pub response_ms: Option<u64>,
    pub detail: Option<JsonValue>,
    pub error_message: Option<String>,
}

/// A checker failed to run at all.
#[derive(Debug)]
pub enum CheckError {
    Error(String),
}

impl CheckError {
    /// The error's display text: `Checker error: <message>`.
    pub fn message(&self) -> (r: String)
        ensures
            match self {
                CheckError::Error(m) => r@ == "Checker error: "@ + m@,
            },
    {
        match self {
            CheckError::Error(m) => {
                let mut r = String::from_str("Checker error: ");
                r.append(m.as_str());
                r
            },
        }
    }
}

/// A service configuration was refused.
#[derive(Debug)]
pub enum ConfigError {
    UnknownType(String),
    InvalidConfig(String),
}

/// The display text of a configuration error.
pub open spec fn config_error_text(e: ConfigError) -> Seq<char> {
    match e {
        ConfigError::UnknownType(t) => "Unknown service type: "@ + t@,
        ConfigError::InvalidConfig(m) => "Invalid config: "@ + m@,
    }
}

impl ConfigError {
    /// The error's display text.
    pub fn message(&self) -> (r: String)
        ensures
            r@ == config_error_text(*self),
    {
        match self {
            ConfigError::UnknownType(t) => {
                let mut r = String::from_str("Unknown service type: ");
                r.append(t.as_str());
                r
            },
            ConfigError::InvalidConfig(m) => {
                let mut r = String::from_str("Invalid config: ");
                r.append(m.as_str());
                r
            },
        }
    }
}

/// `e` is `InvalidConfig` carrying exactly the message `msg`.
pub open spec fn is_invalid_config(e: ConfigError, msg: Seq<char>) -> bool {
    e matches ConfigError::InvalidConfig(m) && m@ == msg
}

/// The message refusing a connection string whose driver cannot be inferred.
pub open spec fn undetected_driver_message(cs: Seq<char>) -> Seq<char> {
    "cannot infer driver from connection_string '"@ + cs + "' \u{2014} expected 'sqlite:' or 'postgresql://'"@
}

/// The database driver named by the scheme of a connection string.
pub fn infer_driver(connection_string: &str) -> (r: Result<&'static str, ConfigError>)
    ensures
        is_prefix("sqlite:"@, connection_string@) ==> (r matches Ok(d) && d@ == "sqlite"@),
        !is_prefix("sqlite:"@, connection_string@) && (is_prefix("postgresql://"@, connection_string@)
            || is_prefix("postgres://"@, connection_string@)) ==> (r matches Ok(d) && d@ == "postgresql"@),
        !is_prefix("sqlite:"@, connection_string@) && !is_prefix("postgresql://"@, connection_string@)
            && !is_prefix("postgres://"@, connection_string@) ==> (r matches Err(e) && is_invalid_config(
            e,
            undetected_driver_message(connection_string@),
        )),
{
    if has_prefix(connection_string, "sqlite:") {
        Ok("sqlite")
    } else if has_prefix(connection_string, "postgresql://") || has_prefix(connection_string, "postgres://") {
        Ok("postgresql")
    } else {
        let mut m = String::from_str("cannot infer driver from connection_string '");
        m.append(connection_string);
        m.append("' \u{2014} expected 'sqlite:' or 'postgresql://'");
        Err(ConfigError::InvalidConfig(m))
    }
}

/// A required string member of a configuration, or `InvalidConfig(missing)`.
pub(crate) fn required_str(config: &JsonValue, key: &str, missing: &str) -> (r: Result<String, ConfigError>)
    ensures
        match string_of_value(member(*config, key@)) {
            Some(s) => r matches Ok(v) && v@ == s,
            None => r matches Err(e) && is_invalid_config(e, missing@),
        },
{
    match config.get_str(key) {
        Some(s) => Ok(String::from_str(s)),
        None => Err(ConfigError::InvalidConfig(String::from_str(missing))),
    }
}

/// An optional string member of a configuration.
pub(crate) fn optional_str(config: &JsonValue, key: &str) -> (r: Option<String>)
    ensures
        match string_of_value(member(*config, key@)) {
            Some(s) => r matches Some(v) && v@ == s,
            None => r is None,
        },
{
    match config.get_str(key) {
        Some(s) => Some(String::from_str(s)),
        None => None,
    }
}

/// The verdict of a probe that answered in `elapsed_ms`: degraded when a
/// latency limit is set and exceeded, up otherwise.
pub open spec fn latency_verdict(degraded_ms: Option<u64>, elapsed_ms: u64) -> CheckStatus {
    if degraded_ms matches Some(d) && elapsed_ms > d {
        CheckStatus::Degraded
    } else {
        CheckStatus::Up
    }
}

/// Computes `latency_verdict`.
pub fn latency_status(degraded_ms: Option<u64>, elapsed_ms: u64) -> (r: CheckStatus)
    ensures
        r == latency_verdict(degraded_ms, elapsed_ms),
{
    match degraded_ms {
        Some(d) => if elapsed_ms > d { CheckStatus::Degraded } else { CheckStatus::Up },
        None => CheckStatus::Up,
    }
}

/// Whether an HTTP status code is in the success class (200–299).
pub open spec fn is_success_code(code: u16) -> bool {
    200 <= code && code < 300
}

/// Law: an HTTP status counts as success exactly when it is one of
/// 200..=299; every informational, redirect, client-error or server-error
/// status is a failure.
pub proof fn lemma_success_is_2xx(code: u16)
    ensures
        is_success_code(code) == (200 <= code && code <= 299),
        code < 200 ==> !is_success_code(code),
        code >= 300 ==> !is_success_code(code),
{
}

/// Computes `is_success_code`.
pub fn is_success(code: u16) -> (r: bool)
    ensures
        r == is_success_code(code),
        r == (200 <= code && code <= 299),
{
    200 <= code && code < 300
}

/// The text `<prefix><code>`, as `format!("{prefix}{code}")`.
pub fn labelled_code(prefix: &str, code: u16) -> (r: String)
    ensures
        r@ == prefix@ + decimal(code as nat),
{
    let mut r = String::from_str(prefix);
    push_decimal(&mut r, code as u64);
    r
}

/// A checker that failed to produce a measurement: down, with the error.
pub open spec fn is_down_with(out: CheckOutput, response_ms: Option<u64>, error: Seq<char>) -> bool {
    &&& out.status == CheckStatus::Down
    &&& out.response_ms == response_ms
    &&& out.detail is None
    &&& out.error_message matches Some(m) && m@ == error
}

/// The output for a probe that failed with `error`.
pub fn failed_output(response_ms: Option<u64>, error: String) -> (r: CheckOutput)
    ensures
        is_down_with(r, response_ms, error@),
{
    CheckOutput { status: CheckStatus::Down, response_ms, detail: None, error_message: Some(error) }
}

/// A configured checker of one of the supported kinds.
#[derive(Debug)]
pub enum ServiceChecker {
    Http(HttpChecker),
    HttpBody(HttpBodyChecker),
    Database(DatabaseChecker),
    AwsBilling(AwsBillingChecker),
    PhpSite(PhpSiteChecker),
    Preflight(PreflightChecker),
    SqlQuery(SqlQueryChecker),
    ChartQuery(ChartQueryChecker),
}

/// Whether `r` is the result of building a checker of type `service_type`
/// from `config`: each known type reads its own settings, any other type is
/// refused as unknown.
pub open spec fn checker_built(service_type: Seq<char>, config: JsonValue, r: Result<ServiceChecker, ConfigError>) -> bool {
    if service_type == "http"@ {
        match r {
            Ok(ServiceChecker::Http(c)) => http_settings(config, Ok(c)),
            Err(e) => http_settings(config, Err(e)),
            _ => false,
        }
    } else if service_type == "http_body"@ {
        match r {
            Ok(ServiceChecker::HttpBody(c)) => http_body_settings(config, Ok(c)),
            Err(e) => http_body_settings(config, Err(e)),
            _ => false,
        }
    } else if service_type == "database"@ {
        match r {
            Ok(ServiceChecker::Database(c)) => database_settings(config, Ok(c)),
            Err(e) => database_settings(config, Err(e)),
            _ => false,
        }
    } else if service_type == "aws_billing"@ {
        match r {
            Ok(ServiceChecker::AwsBilling(c)) => aws_billing_settings(config, Ok(c)),
            Err(e) => aws_billing_settings(config, Err(e)),
            _ => false,
        }
    } else if service_type == "php_site"@ {
        match r {
            Ok(ServiceChecker::PhpSite(c)) => php_site_settings(config, Ok(c)),
            Err(e) => php_site_settings(config, Err(e)),
            _ => false,
        }
    } else if service_type == "preflight"@ {
        match r {
            Ok(ServiceChecker::Preflight(c)) => preflight_settings(config, Ok(c)),
            Err(e) => preflight_settings(config, Err(e)),
            _ => false,
        }
    } else if service_type == "sql_query"@ {
        match r {
            Ok(ServiceChecker::SqlQuery(c)) => sql_query_settings(config, Ok(c)),
            Err(e) => sql_query_settings(config, Err(e)),
            _ => false,
        }
    } else if service_type == "chart_query"@ {
        match r {
            Ok(ServiceChecker::ChartQuery(c)) => chart_query_settings(config, Ok(c)),
            Err(e) => chart_query_settings(config, Err(e)),
            _ => false,
        }
    } else {
        r matches Err(ConfigError::UnknownType(t)) && t@ == service_type
    }
}

/// Builds the checker for a service of type `service_type` configured by
/// `config`.
pub fn build_checker(service_type: &str, config: &JsonValue) -> (r: Result<ServiceChecker, ConfigError>)
    ensures
        checker_built(service_type@, *config, r),
{
    if str_eq(service_type, "http") {
        match HttpChecker::from_config(config) {
            Ok(c) => Ok(ServiceChecker::Http(c)),
            Err(e) => Err(e),
        }
    } else if str_eq(service_type, "http_body") {
        match HttpBodyChecker::from_config(config) {
            Ok(c) => Ok(ServiceChecker::HttpBody(c)),
            Err(e) => Err(e),
        }
    } else if str_eq(service_type, "database") {
        match DatabaseChecker::from_config(config) {
            Ok(c) => Ok(ServiceChecker::Database(c)),
            Err(e) => Err(e),
        }
    } else if str_eq(service_type, "aws_billing") {
        match AwsBillingChecker::from_config(config) {
            Ok(c) => Ok(ServiceChecker::AwsBilling(c)),
            Err(e) => Err(e),
        }
    } else if str_eq(service_type, "php_site") {
        match PhpSiteChecker::from_config(config) {
            Ok(c) => Ok(ServiceChecker::PhpSite(c)),
            Err(e) => Err(e),
        }
    } else if str_eq(service_type, "preflight") {
        match PreflightChecker::from_config(config) {
            Ok(c) => Ok(ServiceChecker::Preflight(c)),
            Err(e) => Err(e),
        }
    } else if str_eq(service_type, "sql_query") {
        match SqlQueryChecker::from_config(config) {
            Ok(c) => Ok(ServiceChecker::SqlQuery(c)),
            Err(e) => Err(e),
        }
    } else if str_eq(service_type, "chart_query") {
        match ChartQueryChecker::from_config(config) {
            Ok(c) => Ok(ServiceChecker::ChartQuery(c)),
            Err(e) => Err(e),
        }
    } else {
        Err(ConfigError::UnknownType(String::from_str(service_type)))
    }
}

/// The result of a probe that may have run past its deadline (`None`), with
/// a deadline overrun reported as the error `timeout_message`.
pub fn settle<T>(attempt: Option<Result<T, String>>, timeout_message: &str) -> (r: Result<T, String>)
    ensures
        match attempt {
            Some(x) => r == x,
            None => r matches Err(m) && m@ == timeout_message@,
        },
{
    match attempt {
        Some(x) => x,
        None => Err(String::from_str(timeout_message)),
    }
}

} // verus!
