use uptime_monitor::api::{
    apply_service_update, apply_system_update, derive_health, page_limit, parse_i64, plan_checks_query,
    plan_new_service, uptime_window, ChecksQuery, CreateService, ServiceSettings, UpdateService, UpdateSystem,
    WorkerCommand,
};
use uptime_monitor::json::{JsonObject, JsonValue};

#[test]
fn parse_i64_like_std() {
    for t in ["0", "42", "-7", "+9", "9223372036854775807", "-9223372036854775808", "", "-", "+", "1a", " 1",
        "9223372036854775808", "-9223372036854775809", "007", "--1"] {
        assert_eq!(parse_i64(t), t.parse::<i64>().ok(), "input {:?}", t);
    }
}

#[test]
fn page_limit_defaults_to_fifty() {
    assert_eq!(page_limit(None), 50);
    assert_eq!(page_limit(Some("20")), 20);
    assert_eq!(page_limit(Some("ten")), 50);
}

#[test]
fn checks_query_plans() {
    assert!(matches!(plan_checks_query(Some("5"), None), ChecksQuery::Latest { limit: 5 }));
    match plan_checks_query(None, Some("chk-9")) {
        ChecksQuery::Before { before_id, limit } => {
            assert_eq!(before_id, "chk-9");
            assert_eq!(limit, 50);
        },
        other => panic!("unexpected {:?}", other),
    }
}

#[test]
fn uptime_windows() {
    assert_eq!(uptime_window(None), ("7d".to_string(), 7));
    assert_eq!(uptime_window(Some("24h")), ("24h".to_string(), 1));
    assert_eq!(uptime_window(Some("30d")), ("30d".to_string(), 30));
    assert_eq!(uptime_window(Some("90d")), ("90d".to_string(), 90));
    assert_eq!(uptime_window(Some("1y")), ("1y".to_string(), 7));
}

#[test]
fn service_update_merges_fields() {
    let current = ServiceSettings { name: "api".to_string(), config: "{}".to_string(), interval_secs: 60, enabled: true };
    let upd = UpdateService { name: None, config: Some("{\"url\":\"u\"}".to_string()), interval_secs: None, enabled: Some(false), system_ids: None };
    let (s, cmd) = apply_service_update(current, &upd);
    assert_eq!(s.name, "api");
    assert_eq!(s.config, "{\"url\":\"u\"}");
    assert_eq!(s.interval_secs, 60);
    assert!(!s.enabled);
    assert_eq!(cmd, WorkerCommand::Abort);
    let upd = UpdateService { name: Some("web".to_string()), config: None, interval_secs: Some(30), enabled: None, system_ids: None };
    let (s, cmd) = apply_service_update(s, &upd);
    assert_eq!((s.name.as_str(), s.interval_secs, s.enabled), ("web", 30, false));
    assert_eq!(cmd, WorkerCommand::Abort);
    let upd = UpdateService { name: None, config: None, interval_secs: None, enabled: Some(true), system_ids: None };
    assert_eq!(apply_service_update(s, &upd).1, WorkerCommand::Spawn);
}

#[test]
fn system_update_keeps_absent_fields() {
    let upd = UpdateSystem { name: None, description: None };
    assert_eq!(apply_system_update("core".to_string(), Some("d".to_string()), &upd), ("core".to_string(), Some("d".to_string())));
    let upd = UpdateSystem { name: Some("edge".to_string()), description: Some("new".to_string()) };
    assert_eq!(apply_system_update("core".to_string(), None, &upd), ("edge".to_string(), Some("new".to_string())));
}

#[test]
fn new_service_validation() {
    let mut cfg = JsonObject::new();
    cfg.insert("url".to_string(), JsonValue::String("http://h/".to_string()));
    let body = CreateService {
        name: "site".to_string(),
        service_type: "php_site".to_string(),
        config: JsonValue::Object(cfg),
        interval_secs: None,
        system_ids: None,
    };
    assert_eq!(plan_new_service(&body), Ok(60));
    let body = CreateService { service_type: "gopher".to_string(), interval_secs: Some(15), ..body };
    assert_eq!(plan_new_service(&body), Err("Unknown service type: gopher".to_string()));
    let body = CreateService { service_type: "database".to_string(), ..body };
    assert_eq!(
        plan_new_service(&body),
        Err("Invalid config: database checker requires 'connection_string'".to_string())
    );
}

#[test]
fn system_health_is_the_worst_status() {
    let v = |xs: &[&str]| xs.iter().map(|x| x.to_string()).collect::<Vec<String>>();
    assert_eq!(derive_health(&v(&[])), "unknown");
    assert_eq!(derive_health(&v(&["up", "up"])), "up");
    assert_eq!(derive_health(&v(&["up", "degraded", "up"])), "degraded");
    assert_eq!(derive_health(&v(&["degraded", "down", "up"])), "down");
    assert_eq!(derive_health(&v(&["weird"])), "up");
}
