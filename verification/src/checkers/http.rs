//! A plain HTTP checker: fetch a URL and judge it by its status code and
//! how long it took.
use vstd::prelude::*;
use vstd::string::*;
use crate::json::{member, string_of_value, u64_of_value, JsonValue};
use crate::text::decimal;
use super::php_site::{is_status_detail, status_detail};
use super::{
    failed_output, is_down_with, is_invalid_config, is_success, is_success_code, labelled_code,
    latency_status, latency_verdict, required_str, CheckOutput, CheckStatus, ConfigError,
};

verus! {

/// Fetches a URL.
#[derive(Debug)]
pub struct HttpChecker {
    pub url: String,
    pub timeout_ms: u64,
    pub degraded_ms: Option<u64>,
}

/// Whether `r` is the result of reading a `HttpChecker` configuration from `config`.
pub open spec fn http_settings(config: JsonValue, r: Result<HttpChecker, ConfigError>) -> bool {
    match string_of_value(member(config, "url"@)) {
        None => r matches Err(e) && is_invalid_config(e, "http checker requires 'url'"@),
        Some(u) => r matches Ok(c) && {
            &&& c.url@ == u
            &&& c.timeout_ms == match u64_of_value(member(config, "timeout_ms"@)) {
                Some(t) => t,
                None => 10_000,
            }
            &&& c.degraded_ms == u64_of_value(member(config, "degraded_ms"@))
        },
    }
}

/// The verdict of a fetch answered with `code` in `elapsed_ms`: down on a
/// non-2xx status (with the error `HTTP <code>`), else by latency; the
/// detail records the status code.
pub open spec fn is_http_verdict(out: CheckOutput, degraded_ms: Option<u64>, code: u16, elapsed_ms: u64) -> bool {
    &&& out.status == if !is_success_code(code) {
        CheckStatus::Down
    } else {
        latency_verdict(degraded_ms, elapsed_ms)
    }
    &&& out.response_ms == Some(elapsed_ms)
    &&& is_status_detail(out.detail, code)
    &&& if is_success_code(code) {
        out.error_message is None
    } else {
        out.error_message matches Some(m) && m@ == "HTTP "@ + decimal(code as nat)
    }
}

impl HttpChecker {
    /// Reads the checker's settings: `url` (required), `timeout_ms` (default
    /// 10000), `degraded_ms`.
    pub fn from_config(config: &JsonValue) -> (r: Result<HttpChecker, ConfigError>)
        ensures
            http_settings(*config, r),
    {
        let url = required_str(config, "url", "http checker requires 'url'")?;
        let timeout_ms = match config.get_u64("timeout_ms") {
            Some(t) => t,
            None => 10_000,
        };
        let degraded_ms = config.get_u64("degraded_ms");
        Ok(HttpChecker { url, timeout_ms, degraded_ms })
    }

    /// The verdict of one fetch that took `elapsed_ms`: down on a transport
    /// error, else judged by the status code it answered.
    pub fn outcome(&self, reply: Result<u16, String>, elapsed_ms: u64) -> (r: CheckOutput)
        ensures
            match reply {
                Err(e) => is_down_with(r, Some(elapsed_ms), e@),
                Ok(code) => is_http_verdict(r, self.degraded_ms, code, elapsed_ms),
            },
            match reply {
                Ok(code) => if 200 <= code && code <= 299 {
                    r.status == latency_verdict(self.degraded_ms, elapsed_ms) && r.error_message is None
                } else {
                    &&& r.status == CheckStatus::Down
                    &&& r.error_message matches Some(m) && m@ == "HTTP "@ + decimal(code as nat)
                },
                Err(_) => true,
            },
    {
        match reply {
            Err(e) => failed_output(Some(elapsed_ms), e),
            Ok(code) => {
                let ok = is_success(code);
                let status = if !ok {
                    CheckStatus::Down
                } else {
                    latency_status(self.degraded_ms, elapsed_ms)
                };
                let error_message = if !ok {
                    Some(labelled_code("HTTP ", code))
                } else {
                    None
                };
                CheckOutput { status, response_ms: Some(elapsed_ms), detail: Some(status_detail(code)), error_message }
            },
        }
    }
}

} // verus!
