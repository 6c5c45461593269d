//! A preflight checker: fetch a host's status endpoint (the document this
//! project's status provider serves, `{"ok":true,"time":…,"disk_free_gb":…}`)
//! and require it to report itself ok.
use vstd::prelude::*;
use vstd::string::*;
use crate::json::{member, string_of_value, u64_of_value, JsonValue};
use crate::text::decimal;
use super::php_site::{is_status_detail, status_detail};
use super::{
    failed_output, is_down_with, is_invalid_config, is_success, is_success_code, labelled_code,
    latency_status, latency_verdict, required_str, CheckOutput, CheckStatus, ConfigError,
};

verus! {

/// Fetches a host's status document.
#[derive(Debug)]
pub struct PreflightChecker {
    pub url: String,
    pub timeout_ms: u64,
    pub degraded_ms: Option<u64>,
}

/// The answer of a status endpoint: its HTTP status and its body read as
/// JSON (`None` when the body is not JSON).
#[derive(Debug)]
pub struct StatusReply {
    pub http_status: u16,
    pub document: Option<JsonValue>,
}

/// Whether `r` is the result of reading a `PreflightChecker` configuration from `config`.
pub open spec fn preflight_settings(config: JsonValue, r: Result<PreflightChecker, ConfigError>) -> bool {
    match string_of_value(member(config, "url"@)) {
        None => r matches Err(e) && is_invalid_config(e, "preflight checker requires 'url'"@),
        Some(u) => r matches Ok(c) && {
            &&& c.url@ == u
            &&& c.timeout_ms == match u64_of_value(member(config, "timeout_ms"@)) {
                Some(t) => t,
                None => 10_000,
            }
            &&& c.degraded_ms == u64_of_value(member(config, "degraded_ms"@))
        },
    }
}

/// The status document reports the host ok: its `ok` member is `true`.
pub open spec fn reports_ok(document: Option<JsonValue>) -> bool {
    document matches Some(d) && member(d, "ok"@) == Some(JsonValue::Bool(true))
}

fn document_ok(document: &Option<JsonValue>) -> (r: bool)
    ensures
        r == reports_ok(*document),
{
    match document {
        Some(d) => match d.get("ok") {
            Some(JsonValue::Bool(b)) => *b,
            _ => false,
        },
        None => false,
    }
}

impl PreflightChecker {
    /// Reads the checker's settings: `url` (required), `timeout_ms` (default
    /// 10000), `degraded_ms`.
    pub fn from_config(config: &JsonValue) -> (r: Result<PreflightChecker, ConfigError>)
        ensures
            preflight_settings(*config, r),
    {
        let url = required_str(config, "url", "preflight checker requires 'url'")?;
        let timeout_ms = match config.get_u64("timeout_ms") {
            Some(t) => t,
            None => 10_000,
        };
        let degraded_ms = config.get_u64("degraded_ms");
        Ok(PreflightChecker { url, timeout_ms, degraded_ms })
    }

    /// The verdict of one fetch of the status endpoint that took
    /// `elapsed_ms`: down on a transport error or a non-2xx status; down when
    /// the document does not report the host ok; otherwise by latency. The
    /// detail is the status document (the status code on a non-2xx answer).
    pub fn outcome(&self, reply: Result<StatusReply, String>, elapsed_ms: u64) -> (r: CheckOutput)
        ensures
            match reply {
                Err(e) => is_down_with(r, Some(elapsed_ms), e@),
                Ok(rep) => {
                    &&& r.response_ms == Some(elapsed_ms)
                    &&& if !is_success_code(rep.http_status) {
                        &&& r.status == CheckStatus::Down
                        &&& is_status_detail(r.detail, rep.http_status)
                        &&& r.error_message matches Some(m) && m@ == "HTTP "@ + decimal(
                            rep.http_status as nat,
                        )
                    } else if reports_ok(rep.document) {
                        &&& r.status == latency_verdict(self.degraded_ms, elapsed_ms)
                        &&& r.detail == rep.document
                        &&& r.error_message is None
                    } else {
                        &&& r.status == CheckStatus::Down
                        &&& r.detail == rep.document
                        &&& r.error_message matches Some(m) && m@ == "status endpoint did not report ok"@
                    }
                },
            },
            match reply {
                Ok(rep) => !(200 <= rep.http_status && rep.http_status <= 299) ==> {
                    &&& r.status == CheckStatus::Down
                    &&& r.error_message matches Some(m) && m@ == "HTTP "@ + decimal(rep.http_status as nat)
                },
                Err(_) => true,
            },
    {
        match reply {
            Err(e) => failed_output(Some(elapsed_ms), e),
            Ok(rep) => {
                let code = rep.http_status;
                if !is_success(code) {
                    CheckOutput {
                        status: CheckStatus::Down,
                        response_ms: Some(elapsed_ms),
                        detail: Some(status_detail(code)),
                        error_message: Some(labelled_code("HTTP ", code)),
                    }
                } else if document_ok(&rep.document) {
                    CheckOutput {
                        status: latency_status(self.degraded_ms, elapsed_ms),
                        response_ms: Some(elapsed_ms),
                        detail: rep.document,
                        error_message: None,
                    }
                } else {
                    CheckOutput {
                        status: CheckStatus::Down,
                        response_ms: Some(elapsed_ms),
                        detail: rep.document,
                        error_message: Some(String::from_str("status endpoint did not report ok")),
                    }
                }
            },
        }
    }
}

} // verus!
