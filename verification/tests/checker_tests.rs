use uptime_monitor::checkers::aws_billing::{blended_cost_amount, derive_signing_key, sha256_hex, AwsBillingChecker};
use uptime_monitor::checkers::chart_query::ChartQueryChecker;
use uptime_monitor::checkers::database::DatabaseChecker;
use uptime_monitor::checkers::http::HttpChecker;
use uptime_monitor::checkers::preflight::{PreflightChecker, StatusReply};
use uptime_monitor::checkers::http_body::{cuttable_at, truncate_body, HttpBodyChecker, HttpReply};
use uptime_monitor::checkers::php_site::{PhpNext, PhpSiteChecker};
use uptime_monitor::checkers::sql_query::{grade, SqlDriver, SqlQueryChecker, Threshold};
use uptime_monitor::checkers::{
    build_checker, infer_driver, is_success, latency_status, settle, CheckError, CheckStatus,
    ConfigError, ServiceChecker,
};
use uptime_monitor::json::{JsonNumber, JsonObject, JsonValue};

fn obj(pairs: Vec<(&str, JsonValue)>) -> JsonValue {
    let mut o = JsonObject::new();
    for (k, v) in pairs {
        o.insert(k.to_string(), v);
    }
    JsonValue::Object(o)
}

fn s(x: &str) -> JsonValue {
    JsonValue::String(x.to_string())
}

fn n(x: u64) -> JsonValue {
    JsonValue::Number(JsonNumber::PosInt(x))
}

fn invalid(e: ConfigError) -> String {
    match e {
        ConfigError::InvalidConfig(m) => m,
        other => panic!("expected InvalidConfig, got {:?}", other),
    }
}

fn field<'a>(detail: &'a Option<JsonValue>, key: &str) -> &'a JsonValue {
    detail.as_ref().expect("detail").get(key).expect("member")
}

#[test]
fn infer_driver_by_scheme() {
    assert_eq!(infer_driver("sqlite:data.db").unwrap(), "sqlite");
    assert_eq!(infer_driver("postgresql://u@h/db").unwrap(), "postgresql");
    assert_eq!(infer_driver("postgres://u@h/db").unwrap(), "postgresql");
    let e = infer_driver("mysql://h").unwrap_err();
    assert_eq!(
        invalid(e),
        "cannot infer driver from connection_string 'mysql://h' \u{2014} expected 'sqlite:' or 'postgresql://'"
    );
}

#[test]
fn config_error_messages() {
    assert_eq!(ConfigError::UnknownType("ftp".to_string()).message(), "Unknown service type: ftp");
    assert_eq!(ConfigError::InvalidConfig("bad".to_string()).message(), "Invalid config: bad");
    assert_eq!(CheckError::Error("boom".to_string()).message(), "Checker error: boom");
}

#[test]
fn status_texts_and_latency() {
    assert_eq!(CheckStatus::Up.as_str(), "up");
    assert_eq!(CheckStatus::Degraded.as_str(), "degraded");
    assert_eq!(CheckStatus::Down.as_str(), "down");
    assert_eq!(latency_status(None, 100_000), CheckStatus::Up);
    assert_eq!(latency_status(Some(100), 100), CheckStatus::Up);
    assert_eq!(latency_status(Some(100), 101), CheckStatus::Degraded);
    assert!(is_success(200) && is_success(299));
    assert!(!is_success(199) && !is_success(300) && !is_success(404));
}

#[test]
fn database_config_defaults_and_required_field() {
    let c = DatabaseChecker::from_config(&obj(vec![("connection_string", s("postgres://x"))])).unwrap();
    assert_eq!(c.connection_string, "postgres://x");
    assert_eq!(c.probe_query, "SELECT 1");
    assert_eq!(c.degraded_ms, None);
    assert_eq!(c.timeout_ms, 10_000);
    let c = DatabaseChecker::from_config(&obj(vec![
        ("connection_string", s("postgres://x")),
        ("probe_query", s("SELECT 2")),
        ("degraded_ms", n(250)),
        ("timeout_ms", n(500)),
    ]))
    .unwrap();
    assert_eq!(c.probe_query, "SELECT 2");
    assert_eq!(c.degraded_ms, Some(250));
    assert_eq!(c.timeout_ms, 500);
    let e = DatabaseChecker::from_config(&obj(vec![("connection_string", n(1))])).unwrap_err();
    assert_eq!(invalid(e), "database checker requires 'connection_string'");
    let e = DatabaseChecker::from_config(&JsonValue::Null).unwrap_err();
    assert_eq!(invalid(e), "database checker requires 'connection_string'");
}

#[test]
fn database_outcomes() {
    let c = DatabaseChecker::from_config(&obj(vec![("connection_string", s("x")), ("degraded_ms", n(50))])).unwrap();
    let out = c.outcome(None, 10_000);
    assert_eq!(out.status, CheckStatus::Down);
    assert_eq!(out.error_message.as_deref(), Some("connection timed out"));
    assert_eq!(out.response_ms, Some(10_000));
    let out = c.outcome(Some(Err("refused".to_string())), 3);
    assert_eq!(out.status, CheckStatus::Down);
    assert_eq!(out.error_message.as_deref(), Some("refused"));
    let out = c.outcome(Some(Ok(())), 10);
    assert_eq!(out.status, CheckStatus::Up);
    assert!(out.error_message.is_none() && out.detail.is_none());
    let out = c.outcome(Some(Ok(())), 51);
    assert_eq!(out.status, CheckStatus::Degraded);
}

#[test]
fn http_body_config_with_headers() {
    let headers = obj(vec![("X-Token", s("abc")), ("X-Count", n(3)), ("Accept", s("text/plain"))]);
    let c = HttpBodyChecker::from_config(&obj(vec![("url", s("http://h/")), ("headers", headers), ("body_limit", n(10))]))
        .unwrap();
    assert_eq!(c.url, "http://h/");
    assert_eq!(c.timeout_ms, 10_000);
    assert_eq!(c.body_limit, 10);
    let mut hs = c.headers.clone();
    hs.sort();
    assert_eq!(
        hs,
        vec![("Accept".to_string(), "text/plain".to_string()), ("X-Token".to_string(), "abc".to_string())]
    );
    let c = HttpBodyChecker::from_config(&obj(vec![("url", s("u"))])).unwrap();
    assert_eq!(c.body_limit, 4096);
    assert!(c.headers.is_empty());
    let e = HttpBodyChecker::from_config(&obj(vec![])).unwrap_err();
    assert_eq!(invalid(e), "http_body checker requires 'url'");
}

#[test]
fn body_truncation() {
    assert_eq!(truncate_body("hello".to_string(), 5), "hello");
    assert_eq!(truncate_body("hello world".to_string(), 5), "hello\n[truncated]");
    assert_eq!(truncate_body("h\u{e9}llo".to_string(), 3), "h\u{e9}\n[truncated]");
    assert_eq!(truncate_body(String::new(), 0), "");
}

#[test]
fn body_cut_points() {
    assert!(cuttable_at("hello", 10));
    assert!(cuttable_at("hello", 3));
    assert!(cuttable_at("h\u{e9}llo", 3));
    assert!(!cuttable_at("h\u{e9}llo", 2));
    assert!(cuttable_at("\u{e9}", 2));
}

#[test]
fn http_body_outcomes() {
    let c = HttpBodyChecker::from_config(&obj(vec![("url", s("u")), ("degraded_ms", n(100)), ("body_limit", n(4))]))
        .unwrap();
    let out = c.outcome(Err("dns".to_string()), 7);
    assert_eq!(out.status, CheckStatus::Down);
    assert_eq!(out.error_message.as_deref(), Some("dns"));
    assert!(out.detail.is_none());
    let out = c.outcome(Ok(HttpReply { http_status: 503, body: "unavailable".to_string() }), 7);
    assert_eq!(out.status, CheckStatus::Down);
    assert_eq!(out.error_message.as_deref(), Some("HTTP 503"));
    assert!(matches!(field(&out.detail, "http_status"), JsonValue::Number(JsonNumber::PosInt(503))));
    assert!(matches!(field(&out.detail, "body"), JsonValue::String(b) if b == "unav\n[truncated]"));
    let out = c.outcome(Ok(HttpReply { http_status: 200, body: "ok".to_string() }), 150);
    assert_eq!(out.status, CheckStatus::Degraded);
    assert!(out.error_message.is_none());
    assert!(matches!(field(&out.detail, "body"), JsonValue::String(b) if b == "ok"));
    let out = c.outcome(Ok(HttpReply { http_status: 204, body: String::new() }), 10);
    assert_eq!(out.status, CheckStatus::Up);
}

#[test]
fn php_site_flow() {
    let c = PhpSiteChecker::from_config(&obj(vec![
        ("url", s("http://site/")),
        ("expected_content", s("Welcome")),
        ("fpm_status_url", s("http://site/fpm")),
        ("degraded_ms", n(500)),
    ]))
    .unwrap();
    match c.after_page(Err("timeout".to_string()), 9) {
        PhpNext::Report(out) => {
            assert_eq!(out.status, CheckStatus::Down);
            assert_eq!(out.error_message.as_deref(), Some("timeout"));
        },
        other => panic!("unexpected {:?}", other),
    }
    match c.after_page(Ok(500), 9) {
        PhpNext::Report(out) => {
            assert_eq!(out.status, CheckStatus::Down);
            assert_eq!(out.error_message.as_deref(), Some("HTTP 500"));
            assert!(matches!(field(&out.detail, "http_status"), JsonValue::Number(JsonNumber::PosInt(500))));
        },
        other => panic!("unexpected {:?}", other),
    }
    assert!(matches!(c.after_page(Ok(200), 9), PhpNext::ReadBody));
    match c.after_body(200, 9, "<h1>Goodbye</h1>") {
        PhpNext::Report(out) => {
            assert_eq!(out.status, CheckStatus::Degraded);
            assert_eq!(out.error_message.as_deref(), Some("Expected content not found in response"));
        },
        other => panic!("unexpected {:?}", other),
    }
    assert!(matches!(c.after_body(200, 9, "<h1>Welcome!</h1>"), PhpNext::ProbeFpm));
    let out = c.after_fpm(200, 9, Some(Ok(502)));
    assert_eq!(out.status, CheckStatus::Degraded);
    assert!(out.error_message.is_none());
    assert!(matches!(field(&out.detail, "fpm_ok"), JsonValue::Bool(false)));
    assert!(matches!(field(&out.detail, "fpm_error"), JsonValue::String(e) if e == "FPM status HTTP 502"));
    let out = c.after_fpm(200, 9, Some(Err("refused".to_string())));
    assert!(matches!(field(&out.detail, "fpm_error"), JsonValue::String(e) if e == "refused"));
    let out = c.after_fpm(200, 9, Some(Ok(200)));
    assert_eq!(out.status, CheckStatus::Up);
    assert!(matches!(field(&out.detail, "fpm_ok"), JsonValue::Bool(true)));
    assert!(matches!(field(&out.detail, "fpm_error"), JsonValue::Null));
    let out = c.after_fpm(200, 501, Some(Ok(200)));
    assert_eq!(out.status, CheckStatus::Degraded);
}

#[test]
fn php_site_without_optional_probes() {
    let c = PhpSiteChecker::from_config(&obj(vec![("url", s("http://site/"))])).unwrap();
    assert_eq!(c.timeout_ms, 10_000);
    assert!(c.fpm_status_url.is_none() && c.expected_content.is_none());
    match c.after_page(Ok(200), 12) {
        PhpNext::Report(out) => {
            assert_eq!(out.status, CheckStatus::Up);
            assert_eq!(out.response_ms, Some(12));
            assert!(matches!(field(&out.detail, "http_status"), JsonValue::Number(JsonNumber::PosInt(200))));
        },
        other => panic!("unexpected {:?}", other),
    }
    let e = PhpSiteChecker::from_config(&obj(vec![])).unwrap_err();
    assert_eq!(invalid(e), "php_site checker requires 'url'");
}

#[test]
fn sql_query_config_thresholds_and_driver() {
    let down = obj(vec![("gt", n(10)), ("eq", JsonValue::Number(JsonNumber::NegInt(-1))), ("lt", s("x"))]);
    let c = SqlQueryChecker::from_config(&obj(vec![
        ("driver", s("postgres")),
        ("connection_string", s("postgres://h/db")),
        ("query", s("SELECT count(*)::float8 FROM t")),
        ("down_threshold", down),
        ("degraded_threshold", JsonValue::Null),
    ]))
    .unwrap();
    let t: Threshold = c.down_threshold.unwrap();
    assert!(matches!(t.gt, Some(JsonNumber::PosInt(10))));
    assert!(matches!(t.eq, Some(JsonNumber::NegInt(-1))));
    assert!(t.lt.is_none() && t.gte.is_none() && t.lte.is_none() && t.neq.is_none());
    assert!(c.degraded_threshold.is_none());
    assert_eq!(c.effective_timeout_ms(), 10_000);
    assert_eq!(c.select_driver().unwrap(), SqlDriver::Postgres);
    let c = SqlQueryChecker::from_config(&obj(vec![
        ("driver", s("mysql")),
        ("connection_string", s("c")),
        ("query", s("q")),
        ("timeout_ms", n(20)),
    ]))
    .unwrap();
    assert_eq!(c.select_driver().unwrap_err(), "Unsupported database driver: mysql");
    assert_eq!(c.effective_timeout_ms(), 20);
    let e = SqlQueryChecker::from_config(&obj(vec![("driver", s("sqlite")), ("query", s("q"))])).unwrap_err();
    assert_eq!(invalid(e), "sql_query checker requires 'connection_string'");
    let e = SqlQueryChecker::from_config(&obj(vec![("connection_string", s("c"))])).unwrap_err();
    assert_eq!(invalid(e), "sql_query checker requires 'driver'");
    let e = SqlQueryChecker::from_config(&obj(vec![("driver", s("sqlite")), ("connection_string", s("c"))])).unwrap_err();
    assert_eq!(invalid(e), "sql_query checker requires 'query'");
    assert_eq!(grade(true, true), CheckStatus::Down);
    assert_eq!(grade(false, true), CheckStatus::Degraded);
    assert_eq!(grade(false, false), CheckStatus::Up);
}

#[test]
fn chart_query_config() {
    let c = ChartQueryChecker::from_config(&obj(vec![("connection_string", s("c")), ("query", s("q"))])).unwrap();
    assert_eq!(c.effective_timeout_ms(), 10_000);
    let e = ChartQueryChecker::from_config(&obj(vec![("query", s("q"))])).unwrap_err();
    assert_eq!(invalid(e), "chart_query requires 'connection_string'");
    let e = ChartQueryChecker::from_config(&obj(vec![("connection_string", s("c"))])).unwrap_err();
    assert_eq!(invalid(e), "chart_query requires 'query'");
    assert_eq!(settle::<u8>(None, "query timed out").unwrap_err(), "query timed out");
    assert_eq!(settle(Some(Ok(3u8)), "query timed out").unwrap(), 3);
}

#[test]
fn build_checker_dispatches_on_type() {
    let cfg = obj(vec![("url", s("http://h/"))]);
    assert!(matches!(build_checker("http_body", &cfg), Ok(ServiceChecker::HttpBody(_))));
    assert!(matches!(build_checker("php_site", &cfg), Ok(ServiceChecker::PhpSite(_))));
    assert!(matches!(build_checker("http", &cfg), Ok(ServiceChecker::Http(_))));
    assert!(matches!(build_checker("preflight", &cfg), Ok(ServiceChecker::Preflight(_))));
    assert!(matches!(build_checker("http", &obj(vec![])), Err(ConfigError::InvalidConfig(_))));
    assert!(matches!(build_checker("HTTP", &cfg), Err(ConfigError::UnknownType(_))));
    assert!(matches!(build_checker("database", &cfg), Err(ConfigError::InvalidConfig(_))));
    match build_checker("ftp", &cfg) {
        Err(ConfigError::UnknownType(t)) => assert_eq!(t, "ftp"),
        other => panic!("unexpected {:?}", other),
    }
}

#[test]
fn http_config_and_outcomes() {
    let c = HttpChecker::from_config(&obj(vec![("url", s("http://h/")), ("degraded_ms", n(100))])).unwrap();
    assert_eq!(c.url, "http://h/");
    assert_eq!(c.timeout_ms, 10_000);
    assert_eq!(c.degraded_ms, Some(100));
    let e = HttpChecker::from_config(&obj(vec![("timeout_ms", n(5))])).unwrap_err();
    assert_eq!(invalid(e), "http checker requires 'url'");

    let out = c.outcome(Err("refused".to_string()), 3);
    assert_eq!(out.status, CheckStatus::Down);
    assert_eq!(out.error_message.as_deref(), Some("refused"));
    assert!(out.detail.is_none());
    let out = c.outcome(Ok(404), 3);
    assert_eq!(out.status, CheckStatus::Down);
    assert_eq!(out.error_message.as_deref(), Some("HTTP 404"));
    assert!(matches!(field(&out.detail, "http_status"), JsonValue::Number(JsonNumber::PosInt(404))));
    let out = c.outcome(Ok(200), 250);
    assert_eq!(out.status, CheckStatus::Degraded);
    assert!(out.error_message.is_none());
    let out = c.outcome(Ok(200), 50);
    assert_eq!(out.status, CheckStatus::Up);
    assert_eq!(out.response_ms, Some(50));
}

#[test]
fn preflight_config_and_outcomes() {
    let c = PreflightChecker::from_config(&obj(vec![("url", s("http://host:9000/"))])).unwrap();
    assert_eq!(c.timeout_ms, 10_000);
    assert!(c.degraded_ms.is_none());
    let e = PreflightChecker::from_config(&obj(vec![])).unwrap_err();
    assert_eq!(invalid(e), "preflight checker requires 'url'");

    let good = obj(vec![("ok", JsonValue::Bool(true)), ("time", s("2024-05-10T12:00:00Z"))]);
    let out = c.outcome(Ok(StatusReply { http_status: 200, document: Some(good) }), 12);
    assert_eq!(out.status, CheckStatus::Up);
    assert!(out.error_message.is_none());
    assert!(matches!(field(&out.detail, "ok"), JsonValue::Bool(true)));

    let bad = obj(vec![("ok", JsonValue::Bool(false))]);
    let out = c.outcome(Ok(StatusReply { http_status: 200, document: Some(bad) }), 12);
    assert_eq!(out.status, CheckStatus::Down);
    assert_eq!(out.error_message.as_deref(), Some("status endpoint did not report ok"));

    let out = c.outcome(Ok(StatusReply { http_status: 200, document: None }), 12);
    assert_eq!(out.status, CheckStatus::Down);
    assert!(out.detail.is_none());

    let out = c.outcome(Ok(StatusReply { http_status: 405, document: None }), 12);
    assert_eq!(out.status, CheckStatus::Down);
    assert_eq!(out.error_message.as_deref(), Some("HTTP 405"));

    let out = c.outcome(Err("timeout".to_string()), 10_000);
    assert_eq!(out.status, CheckStatus::Down);
    assert_eq!(out.error_message.as_deref(), Some("timeout"));
}

#[test]
fn aws_config() {
    let c = AwsBillingChecker::from_config(&obj(vec![
        ("access_key_id", s("AKID")),
        ("secret_access_key", s("SECRET")),
        ("threshold_usd", n(250)),
    ]))
    .unwrap();
    assert_eq!(c.access_key_id, "AKID");
    assert!(matches!(c.threshold_usd, Some(JsonNumber::PosInt(250))));
    assert!(c.degraded_pct.is_none());
    let e = AwsBillingChecker::from_config(&obj(vec![("secret_access_key", s("S"))])).unwrap_err();
    assert_eq!(invalid(e), "aws_billing requires 'access_key_id'");
    let e = AwsBillingChecker::from_config(&obj(vec![("access_key_id", s("A"))])).unwrap_err();
    assert_eq!(invalid(e), "aws_billing requires 'secret_access_key'");
}

#[test]
fn sha256_hex_known_digests() {
    assert_eq!(sha256_hex(b"abc"), "ba7816bf8f01cfea414140de5dae2223b00361a396177a9cb410ff61f20015ad");
    assert_eq!(sha256_hex(b""), "e3b0c44298fc1c149afbf4c8996fb92427ae41e4649b934ca495991b7852b855");
}

#[test]
fn signing_key_derivation() {
    let key = derive_signing_key("wJalrXUtnFEMI/K7MDENG+bPxRfiCYEXAMPLEKEY", "20240510");
    assert_eq!(hex_of(&key), "d859ec81b49ec4024545df9253fd9057a2fe6da8db4189cc873de90030f3b5f8");
}

fn hex_of(b: &[u8]) -> String {
    b.iter().map(|x| format!("{:02x}", x)).collect()
}

#[test]
fn signed_cost_request() {
    let c = AwsBillingChecker::from_config(&obj(vec![
        ("access_key_id", s("AKIDEXAMPLE")),
        ("secret_access_key", s("wJalrXUtnFEMI/K7MDENG+bPxRfiCYEXAMPLEKEY")),
    ]))
    .unwrap();
    let r = c.prepare_request("20240510T120000Z", "20240510", "2024-05-01", "2024-05-10");
    assert_eq!(
        r.payload,
        "{\"Granularity\":\"MONTHLY\",\"Metrics\":[\"BlendedCost\"],\"TimePeriod\":{\"End\":\"2024-05-10\",\"Start\":\"2024-05-01\"}}"
    );
    assert_eq!(r.amz_date, "20240510T120000Z");
    assert_eq!(
        r.authorization,
        "AWS4-HMAC-SHA256 Credential=AKIDEXAMPLE/20240510/us-east-1/ce/aws4_request, SignedHeaders=content-type;host;x-amz-date;x-amz-target, Signature=65f8c2431be84bbda6bfafc103ece154121bdf75fb15bca59f9fa3e87585faf2"
    );
}

#[test]
fn cost_request_dated_from_the_clock() {
    let c = AwsBillingChecker::from_config(&obj(vec![
        ("access_key_id", s("AKIDEXAMPLE")),
        ("secret_access_key", s("wJalrXUtnFEMI/K7MDENG+bPxRfiCYEXAMPLEKEY")),
    ]))
    .unwrap();
    // 2024-05-10T12:00:00Z
    let r = c.prepare_request_at(1_715_342_400).unwrap();
    let expected = c.prepare_request("20240510T120000Z", "20240510", "2024-05-01", "2024-05-10");
    assert_eq!(r.amz_date, expected.amz_date);
    assert_eq!(r.payload, expected.payload);
    assert_eq!(r.authorization, expected.authorization);
    assert!(c.prepare_request_at(i64::MAX).is_none());
}

#[test]
fn cost_payload_quotes_and_escapes_dates() {
    let c = AwsBillingChecker::from_config(&obj(vec![("access_key_id", s("A")), ("secret_access_key", s("S"))]))
        .unwrap();
    let r = c.prepare_request("20240510T120000Z", "20240510", "a\"b", "c\\d");
    assert_eq!(
        r.payload,
        "{\"Granularity\":\"MONTHLY\",\"Metrics\":[\"BlendedCost\"],\"TimePeriod\":{\"End\":\"c\\\\d\",\"Start\":\"a\\\"b\"}}"
    );
}

#[test]
fn cost_payload_escapes_control_characters() {
    let c = AwsBillingChecker::from_config(&obj(vec![("access_key_id", s("A")), ("secret_access_key", s("S"))]))
        .unwrap();
    let r = c.prepare_request("20240510T120000Z", "20240510", "\u{1}\n\t\u{7f}", "\u{e9}/");
    assert_eq!(
        r.payload,
        "{\"Granularity\":\"MONTHLY\",\"Metrics\":[\"BlendedCost\"],\"TimePeriod\":{\"End\":\"\u{e9}/\",\"Start\":\"\\u0001\\n\\t\u{7f}\"}}"
    );
}

#[test]
fn cost_amount_path() {
    let amount = obj(vec![("Amount", s("12.34")), ("Unit", s("USD"))]);
    let total = obj(vec![("BlendedCost", amount)]);
    let first = obj(vec![("Total", total)]);
    let resp = obj(vec![("ResultsByTime", JsonValue::Array(vec![first]))]);
    assert_eq!(blended_cost_amount(&resp), Some("12.34"));
    let empty = obj(vec![("ResultsByTime", JsonValue::Array(vec![]))]);
    assert_eq!(blended_cost_amount(&empty), None);
    assert_eq!(blended_cost_amount(&JsonValue::Null), None);
}
