//! A PHP site checker: fetch the page, optionally look for expected content,
//! optionally probe the PHP-FPM status page. The fetches are made by the
//! caller; this module decides, after each of them, what comes next.
use vstd::prelude::*;
use vstd::string::*;
use crate::json::{member, string_of_value, u64_of_value, JsonNumber, JsonObject, JsonValue};
use crate::text::{contains_str, decimal, occurs_in};
use super::{
    failed_output, is_down_with, is_invalid_config, is_success, is_success_code, labelled_code,
    latency_status, latency_verdict, optional_str, required_str, CheckOutput, CheckStatus,
    ConfigError,
};

verus! {

/// Probes a PHP site and, optionally, its FPM status page.
#[derive(Debug)]
pub struct PhpSiteChecker {
    pub url: String,
    pub fpm_status_url: Option<String>,
    pub expected_content: Option<String>,
    pub timeout_ms: u64,
    pub degraded_ms: Option<u64>,
}

/// What the caller does next during a PHP site check.
#[derive(Debug)]
pub enum PhpNext {
    /// Read the page body and hand it to `after_body`.
    ReadBody,
    /// Fetch the FPM status URL and hand the result to `after_fpm`.
    ProbeFpm,
    /// The check is over with this result.
    Report(CheckOutput),
}

/// The detail `{"http_status": code}`.
pub open spec fn is_status_detail(d: Option<JsonValue>, code: u16) -> bool {
    d matches Some(JsonValue::Object(o)) && o.view() == map![
        "http_status"@ => JsonValue::Number(JsonNumber::PosInt(code as u64)),
    ]
}

/// Whether the FPM probe succeeded: no probe configured, or a 2xx answer.
pub open spec fn fpm_healthy(fpm: Option<Result<u16, String>>) -> bool {
    match fpm {
        None => true,
        Some(Ok(code)) => is_success_code(code),
        Some(Err(_)) => false,
    }
}

/// What went wrong with the FPM probe, if anything.
pub open spec fn fpm_problem(fpm: Option<Result<u16, String>>) -> Option<Seq<char>> {
    match fpm {
        Some(Err(e)) => Some(e@),
        Some(Ok(code)) => if is_success_code(code) {
            None
        } else {
            Some("FPM status HTTP "@ + decimal(code as nat))
        },
        None => None,
    }
}

/// The final report after the page (and FPM status, when configured)
/// answered well.
pub open spec fn is_final_report(
    out: CheckOutput,
    degraded_ms: Option<u64>,
    code: u16,
    elapsed_ms: u64,
    fpm: Option<Result<u16, String>>,
) -> bool {
    &&& out.status == if !fpm_healthy(fpm) {
        CheckStatus::Degraded
    } else {
        latency_verdict(degraded_ms, elapsed_ms)
    }
    &&& out.response_ms == Some(elapsed_ms)
    &&& out.error_message is None
    &&& out.detail matches Some(JsonValue::Object(o)) && {
        &&& o.view().dom() == set!["http_status"@, "fpm_ok"@, "fpm_error"@]
        &&& o.view()["http_status"@] == JsonValue::Number(JsonNumber::PosInt(code as u64))
        &&& o.view()["fpm_ok"@] == JsonValue::Bool(fpm_healthy(fpm))
        &&& match fpm_problem(fpm) {
            None => o.view()["fpm_error"@] is Null,
            Some(p) => o.view()["fpm_error"@] matches JsonValue::String(s) && s@ == p,
        }
    }
}

/// The detail's FPM fields: `fpm_ok` is `ok`, and `fpm_error` is the text
/// `error`, or `null` when there is none.
pub open spec fn has_fpm_fields(d: Option<JsonValue>, ok: bool, error: Option<Seq<char>>) -> bool {
    d matches Some(JsonValue::Object(o)) && {
        &&& o.view().dom().contains("fpm_ok"@)
        &&& o.view()["fpm_ok"@] == JsonValue::Bool(ok)
        &&& o.view().dom().contains("fpm_error"@)
        &&& match error {
            None => o.view()["fpm_error"@] is Null,
            Some(e) => o.view()["fpm_error"@] matches JsonValue::String(t) && t@ == e,
        }
    }
}

/// Law: an FPM status page that answers with a status outside 200..=299
/// makes the report degraded, with `fpm_ok` false and the error
/// `FPM status HTTP <code>`, whatever the page's own latency; one that
/// answers within 200..=299 leaves `fpm_ok` true with no error, and the
/// verdict is the page's latency verdict.
pub proof fn lemma_fpm_answer_decides(
    out: CheckOutput,
    degraded_ms: Option<u64>,
    code: u16,
    elapsed_ms: u64,
    fpm_code: u16,
)
    requires
        is_final_report(out, degraded_ms, code, elapsed_ms, Some(Ok(fpm_code))),
    ensures
        !(200 <= fpm_code && fpm_code <= 299) ==> {
            &&& out.status == CheckStatus::Degraded
            &&& has_fpm_fields(out.detail, false, Some("FPM status HTTP "@ + decimal(fpm_code as nat)))
        },
        200 <= fpm_code && fpm_code <= 299 ==> {
            &&& out.status == latency_verdict(degraded_ms, elapsed_ms)
            &&& has_fpm_fields(out.detail, true, None)
        },
{
    reveal_strlit("fpm_ok");
    reveal_strlit("fpm_error");
    reveal_strlit("http_status");
}

/// Whether `r` is the result of reading a `PhpSiteChecker` configuration from `config`.
pub open spec fn php_site_settings(config: JsonValue, r: Result<PhpSiteChecker, ConfigError>) -> bool {
    match string_of_value(member(config, "url"@)) {
        None => r matches Err(e) && is_invalid_config(e, "php_site checker requires 'url'"@),
        Some(u) => r matches Ok(c) && {
            &&& c.url@ == u
            &&& match string_of_value(member(config, "fpm_status_url"@)) {
                Some(f) => c.fpm_status_url matches Some(x) && x@ == f,
                None => c.fpm_status_url is None,
            }
            &&& match string_of_value(member(config, "expected_content"@)) {
                Some(t) => c.expected_content matches Some(x) && x@ == t,
                None => c.expected_content is None,
            }
            &&& c.timeout_ms == match u64_of_value(member(config, "timeout_ms"@)) {
                Some(t) => t,
                None => 10_000,
            }
            &&& c.degraded_ms == u64_of_value(member(config, "degraded_ms"@))
        },
    }
}

impl PhpSiteChecker {
    /// Reads the checker's settings: `url` (required), `fpm_status_url`,
    /// `expected_content`, `timeout_ms` (default 10000), `degraded_ms`.
    pub fn from_config(config: &JsonValue) -> (r: Result<PhpSiteChecker, ConfigError>)
        ensures
            php_site_settings(*config, r),
    {
        let url = required_str(config, "url", "php_site checker requires 'url'")?;
        let fpm_status_url = optional_str(config, "fpm_status_url");
        let expected_content = optional_str(config, "expected_content");
        let timeout_ms = match config.get_u64("timeout_ms") {
            Some(t) => t,
            None => 10_000,
        };
        let degraded_ms = config.get_u64("degraded_ms");
        Ok(PhpSiteChecker { url, fpm_status_url, expected_content, timeout_ms, degraded_ms })
    }

    /// After the page fetch, which took `elapsed_ms`: a transport error or a
    /// non-2xx status ends the check as down; otherwise the body is read when
    /// content is expected, else the FPM status is probed when configured,
    /// else the check ends by latency.
    pub fn after_page(&self, page: Result<u16, String>, elapsed_ms: u64) -> (r: PhpNext)
        ensures
            match page {
                Err(e) => r matches PhpNext::Report(out) && is_down_with(out, Some(elapsed_ms), e@),
                Ok(code) => if !is_success_code(code) {
                    r matches PhpNext::Report(out) && {
                        &&& out.status == CheckStatus::Down
                        &&& out.response_ms == Some(elapsed_ms)
                        &&& is_status_detail(out.detail, code)
                        &&& out.error_message matches Some(m) && m@ == "HTTP "@ + decimal(code as nat)
                    }
                } else if self.expected_content is Some {
                    r is ReadBody
                } else if self.fpm_status_url is Some {
                    r is ProbeFpm
                } else {
                    r matches PhpNext::Report(out) && is_final_report(out, self.degraded_ms, code, elapsed_ms, None)
                },
            },
            match page {
                Ok(code) => !(200 <= code && code <= 299) ==> (r matches PhpNext::Report(out) && {
                    &&& out.status == CheckStatus::Down
                    &&& out.error_message matches Some(m) && m@ == "HTTP "@ + decimal(code as nat)
                }),
                Err(_) => true,
            },
    {
        match page {
            Err(e) => PhpNext::Report(failed_output(Some(elapsed_ms), e)),
            Ok(code) => {
                if !is_success(code) {
                    PhpNext::Report(CheckOutput {
                        status: CheckStatus::Down,
                        response_ms: Some(elapsed_ms),
                        detail: Some(status_detail(code)),
                        error_message: Some(labelled_code("HTTP ", code)),
                    })
                } else if self.expected_content.is_some() {
                    PhpNext::ReadBody
                } else {
                    self.after_content(code, elapsed_ms)
                }
            },
        }
    }

    fn after_content(&self, code: u16, elapsed_ms: u64) -> (r: PhpNext)
        ensures
            if self.fpm_status_url is Some {
                r is ProbeFpm
            } else {
                r matches PhpNext::Report(out) && is_final_report(out, self.degraded_ms, code, elapsed_ms, None)
            },
    {
        if self.fpm_status_url.is_some() {
            PhpNext::ProbeFpm
        } else {
            PhpNext::Report(self.after_fpm(code, elapsed_ms, None))
        }
    }

    /// After reading the body of a 2xx page (status `code`, fetched in
    /// `elapsed_ms`): missing expected content ends the check as degraded;
    /// otherwise the FPM status is probed when configured, else the check
    /// ends by latency.
    pub fn after_body(&self, code: u16, elapsed_ms: u64, body: &str) -> (r: PhpNext)
        ensures
            match self.expected_content {
                Some(t) if !occurs_in(t@, body@) => r matches PhpNext::Report(out) && {
                    &&& out.status == CheckStatus::Degraded
                    &&& out.response_ms == Some(elapsed_ms)
                    &&& is_status_detail(out.detail, code)
                    &&& out.error_message matches Some(m) && m@ == "Expected content not found in response"@
                },
                _ => if self.fpm_status_url is Some {
                    r is ProbeFpm
                } else {
                    r matches PhpNext::Report(out) && is_final_report(out, self.degraded_ms, code, elapsed_ms, None)
                },
            },
    {
        match &self.expected_content {
            Some(t) => {
                if !contains_str(body, t.as_str()) {
                    return PhpNext::Report(CheckOutput {
                        status: CheckStatus::Degraded,
                        response_ms: Some(elapsed_ms),
                        detail: Some(status_detail(code)),
                        error_message: Some(String::from_str("Expected content not found in response")),
                    });
                }
            },
            None => {},
        }
        self.after_content(code, elapsed_ms)
    }

    /// The final report of a check whose page answered `code` in
    /// `elapsed_ms`; `fpm` is the FPM probe's answer (`None` when no FPM
    /// status URL is configured).
    pub fn after_fpm(&self, code: u16, elapsed_ms: u64, fpm: Option<Result<u16, String>>) -> (r: CheckOutput)
        ensures
            is_final_report(r, self.degraded_ms, code, elapsed_ms, fpm),
            match fpm {
                Some(Ok(c)) => if 200 <= c && c <= 299 {
                    &&& r.status == latency_verdict(self.degraded_ms, elapsed_ms)
                    &&& has_fpm_fields(r.detail, true, None)
                } else {
                    &&& r.status == CheckStatus::Degraded
                    &&& has_fpm_fields(r.detail, false, Some("FPM status HTTP "@ + decimal(c as nat)))
                },
                Some(Err(e)) => {
                    &&& r.status == CheckStatus::Degraded
                    &&& has_fpm_fields(r.detail, false, Some(e@))
                },
                None => {
                    &&& r.status == latency_verdict(self.degraded_ms, elapsed_ms)
                    &&& has_fpm_fields(r.detail, true, None)
                },
            },
    {
        let ghost fpm_in = fpm;
        let (fpm_ok, fpm_error) = match fpm {
            None => (true, None),
            Some(Err(e)) => (false, Some(e)),
            Some(Ok(c)) => if is_success(c) {
                (true, None)
            } else {
                (false, Some(labelled_code("FPM status HTTP ", c)))
            },
        };
        let status = if !fpm_ok {
            CheckStatus::Degraded
        } else {
            latency_status(self.degraded_ms, elapsed_ms)
        };
        let ghost err_view = fpm_error;
        let mut d = JsonObject::new();
        d.insert(String::from_str("http_status"), JsonValue::Number(JsonNumber::PosInt(code as u64)));
        d.insert(String::from_str("fpm_ok"), JsonValue::Bool(fpm_ok));
        let err_value = match fpm_error {
            Some(e) => JsonValue::String(e),
            None => JsonValue::Null,
        };
        let ghost ev = err_value;
        d.insert(String::from_str("fpm_error"), err_value);
        proof {
            reveal_strlit("http_status");
            reveal_strlit("fpm_ok");
            reveal_strlit("fpm_error");
            assert("fpm_ok"@.len() != "fpm_error"@.len());
            assert("http_status"@.len() != "fpm_error"@.len());
            assert("http_status"@.len() != "fpm_ok"@.len());
            assert(d.view().dom() =~= set!["http_status"@, "fpm_ok"@, "fpm_error"@]);
            assert(d.view()["fpm_error"@] == ev);
            assert(d.view()["fpm_ok"@] == JsonValue::Bool(fpm_ok));
            assert(d.view()["http_status"@] == JsonValue::Number(JsonNumber::PosInt(code as u64)));
            assert(fpm_ok == fpm_healthy(fpm_in));
            match fpm_problem(fpm_in) {
                None => assert(ev is Null),
                Some(p) => {
                    assert(ev matches JsonValue::String(s) && s@ == p);
                },
            }
        }
        CheckOutput { status, response_ms: Some(elapsed_ms), detail: Some(JsonValue::Object(d)), error_message: None }
    }
}

pub(crate) fn status_detail(code: u16) -> (r: JsonValue)
    ensures
        is_status_detail(Some(r), code),
{
    let mut d = JsonObject::new();
    d.insert(String::from_str("http_status"), JsonValue::Number(JsonNumber::PosInt(code as u64)));
    assert(d.view() =~= map!["http_status"@ => JsonValue::Number(JsonNumber::PosInt(code as u64))]);
    JsonValue::Object(d)
}

} // verus!
