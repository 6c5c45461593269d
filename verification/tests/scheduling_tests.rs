use uptime_monitor::checkers::{CheckOutput, CheckStatus};
use uptime_monitor::incidents::{incident_transition, IncidentAction};
use uptime_monitor::scheduler::{
    next_backoff, period_is_valid, plan_tick, stored_fields, supervise, Registry, ServiceLookup, Supervision, TickPlan, WorkerExit,
};

#[test]
fn incident_opens_on_first_bad_status() {
    assert_eq!(incident_transition(None, CheckStatus::Up), IncidentAction::Keep);
    assert_eq!(
        incident_transition(None, CheckStatus::Down),
        IncidentAction::Open { trigger_status: CheckStatus::Down }
    );
    assert_eq!(
        incident_transition(None, CheckStatus::Degraded),
        IncidentAction::Open { trigger_status: CheckStatus::Degraded }
    );
}

#[test]
fn incident_resolves_only_when_up() {
    assert_eq!(
        incident_transition(Some("inc-1".to_string()), CheckStatus::Up),
        IncidentAction::Resolve { incident_id: "inc-1".to_string() }
    );
    assert_eq!(incident_transition(Some("inc-1".to_string()), CheckStatus::Down), IncidentAction::Keep);
    assert_eq!(incident_transition(Some("inc-1".to_string()), CheckStatus::Degraded), IncidentAction::Keep);
}

#[test]
fn incident_open_exactly_while_not_up() {
    // Drive a sequence of statuses through the transition and track whether an
    // incident is open afterwards.
    let mut open: Option<String> = None;
    let statuses = [CheckStatus::Up, CheckStatus::Down, CheckStatus::Degraded, CheckStatus::Up, CheckStatus::Up, CheckStatus::Down];
    for (i, st) in statuses.iter().enumerate() {
        match incident_transition(open.clone(), *st) {
            IncidentAction::Keep => {},
            IncidentAction::Open { .. } => open = Some(format!("inc-{i}")),
            IncidentAction::Resolve { .. } => open = None,
        }
        assert_eq!(open.is_some(), *st != CheckStatus::Up);
    }
}

#[test]
fn registry_replace_and_remove() {
    let mut r: Registry<u32> = Registry::new();
    assert_eq!(r.replace("a".to_string(), 1), None);
    assert_eq!(r.replace("b".to_string(), 2), None);
    assert_eq!(r.len(), 2);
    assert_eq!(r.replace("a".to_string(), 3), Some(1));
    assert_eq!(r.len(), 2);
    assert!(r.contains("a") && r.contains("b"));
    assert_eq!(r.remove("a"), Some(3));
    assert!(!r.contains("a"));
    assert_eq!(r.remove("a"), None);
    assert_eq!(r.remove("b"), Some(2));
    assert_eq!(r.len(), 0);
}

#[test]
fn backoff_doubles_up_to_a_minute() {
    let mut b = 5;
    let mut seen = vec![];
    for _ in 0..6 {
        seen.push(b);
        b = next_backoff(b);
    }
    assert_eq!(seen, vec![5, 10, 20, 40, 60, 60]);
    assert_eq!(supervise(WorkerExit::Returned, 5), Supervision::Stop);
    assert_eq!(supervise(WorkerExit::Panicked, 40), Supervision::Restart { sleep_secs: 40, next_backoff_secs: 60 });
}

#[test]
fn worker_tick_decisions() {
    assert_eq!(plan_tick(ServiceLookup::Failed, 60), TickPlan::Skip);
    assert_eq!(plan_tick(ServiceLookup::Missing, 60), TickPlan::Stop);
    assert_eq!(plan_tick(ServiceLookup::Found { enabled: false, interval_secs: 60 }, 60), TickPlan::Stop);
    assert_eq!(
        plan_tick(ServiceLookup::Found { enabled: true, interval_secs: 60 }, 60),
        TickPlan::Check { retime: false, period_secs: 60, timeout_secs: 60 }
    );
    assert_eq!(
        plan_tick(ServiceLookup::Found { enabled: true, interval_secs: 10 }, 60),
        TickPlan::Check { retime: true, period_secs: 10, timeout_secs: 30 }
    );
}

#[test]
fn zero_period_is_refused_only_for_enabled_services() {
    assert!(!period_is_valid(ServiceLookup::Found { enabled: true, interval_secs: 0 }));
    assert!(period_is_valid(ServiceLookup::Found { enabled: false, interval_secs: 0 }));
    assert!(period_is_valid(ServiceLookup::Found { enabled: true, interval_secs: -1 }));
    assert!(period_is_valid(ServiceLookup::Missing));
    assert!(period_is_valid(ServiceLookup::Failed));
}

#[test]
fn stored_check_fields() {
    let out = CheckOutput { status: CheckStatus::Degraded, response_ms: Some(42), detail: None, error_message: None };
    assert_eq!(stored_fields(&out), ("degraded".to_string(), Some(42)));
    let out = CheckOutput { status: CheckStatus::Up, response_ms: None, detail: None, error_message: None };
    assert_eq!(stored_fields(&out), ("up".to_string(), None));
}
