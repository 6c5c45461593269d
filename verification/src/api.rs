//! The decisions behind the HTTP API: query parameters, partial updates,
//! validation of new services and the health of a system of services.
use vstd::prelude::*;
use vstd::string::*;
use crate::checkers::{build_checker, checker_built, config_error_text, ServiceChecker};
use crate::json::JsonValue;
use crate::text::str_eq;

verus! {

/// The value of an ASCII decimal digit character.
pub open spec fn digit_value(c: char) -> int {
    c as int - '0' as int
}

/// `c` is an ASCII decimal digit.
pub open spec fn is_digit(c: char) -> bool {
    '0' <= c && c <= '9'
}

/// Every character of `ds` is a decimal digit.
pub open spec fn all_digits(ds: Seq<char>) -> bool {
    forall|i: int| 0 <= i < ds.len() ==> is_digit(ds[i])
}

/// The number a string of decimal digits denotes.
pub open spec fn digits_value(ds: Seq<char>) -> int
    decreases ds.len(),
{
    if ds.len() == 0 {
        0
    } else {
        digits_value(ds.drop_last()) * 10 + digit_value(ds.last())
    }
}

/// The integer `text` denotes as `i64::from_str` reads it: an optional `+`
/// or `-` sign, then one or more ASCII digits, with the value in range;
/// `None` otherwise.
pub open spec fn i64_of_text(text: Seq<char>) -> Option<i64> {
    let negative = text.len() > 0 && text[0] == '-';
    let signed = text.len() > 0 && (text[0] == '-' || text[0] == '+');
    let ds = if signed { text.drop_first() } else { text };
    let v = if negative { -digits_value(ds) } else { digits_value(ds) };
    if ds.len() > 0 && all_digits(ds) && i64::MIN <= v
        <= i64::MAX {
        Some(v as i64)
    } else {
        None
    }
}

proof fn lemma_digits_value_nonneg(ds: Seq<char>)
    requires
        forall|i: int| 0 <= i < ds.len() ==> is_digit(ds[i]),
    ensures
        digits_value(ds) >= 0,
    decreases ds.len(),
{
    if ds.len() > 0 {
        lemma_digits_value_nonneg(ds.drop_last());
    }
}

proof fn lemma_digits_value_grows(ds: Seq<char>, i: int)
    requires
        0 <= i <= ds.len(),
        forall|j: int| 0 <= j < ds.len() ==> is_digit(ds[j]),
    ensures
        digits_value(ds.take(i)) <= digits_value(ds),
    decreases ds.len() - i,
{
    if i < ds.len() {
        lemma_digits_value_grows(ds, i + 1);
        assert(ds.take(i + 1).drop_last() =~= ds.take(i));
        lemma_digits_value_nonneg(ds.take(i));
    } else {
        assert(ds.take(i) =~= ds);
    }
}

/// Parses a decimal `i64` as `str::parse::<i64>` does.
pub fn parse_i64(text: &str) -> (r: Option<i64>)
    ensures
        r == i64_of_text(text@),
{
    let cs = crate::text::chars_of(text);
    let n = cs.len();
    if n == 0 {
        return None;
    }
    let negative = cs[0] == '-';
    let start: usize = if cs[0] == '-' || cs[0] == '+' { 1 } else { 0 };
    let ghost ds = if start == 1 { text@.drop_first() } else { text@ };
    if start == n {
        return None;
    }
    // The magnitude may reach 2^63 only for a negative number.
    let bound: u64 = if negative { 9_223_372_036_854_775_808 } else { 9_223_372_036_854_775_807 };
    let mut acc: u64 = 0;
    let mut i: usize = start;
    while i < n
        invariant
            cs@ == text@,
            n == cs@.len(),
            start <= i <= n,
            start == 0 || start == 1,
            ds == cs@.subrange(start as int, n as int),
            forall|j: int| 0 <= j < i - start ==> is_digit(ds[j]),
            acc == digits_value(ds.take(i - start)),
            acc <= bound,
            n > 0,
            (start == 1) == (text@[0] == '-' || text@[0] == '+'),
            negative == (text@[0] == '-'),
            bound == if negative { 9_223_372_036_854_775_808u64 } else { 9_223_372_036_854_775_807u64 },
        decreases n - i,
    {
        let c = cs[i];
        if !('0' <= c && c <= '9') {
            proof {
                assert(ds[i - start] == c);
                assert(!is_digit(ds[i - start]));
                let sds = if text@.len() > 0 && (text@[0] == '-' || text@[0] == '+') {
                    text@.drop_first()
                } else {
                    text@
                };
                assert(sds =~= ds);
                assert(!all_digits(sds));
                assert(i64_of_text(text@) is None);
            }
            return None;
        }
        let d: u64 = (c as u64) - ('0' as u64);
        assert(d <= 9);
        proof {
            assert(ds.take(i + 1 - start).drop_last() =~= ds.take(i - start));
            assert(ds.take(i + 1 - start).last() == c);
        }
        if acc > (bound - d) / 10 {
            proof {
                let q = (bound - d) / 10;
                assert(acc * 10 + d > bound) by (nonlinear_arith)
                    requires
                        acc > q,
                        q == (bound - d) / 10,
                        d <= 9,
                        bound >= 9,
                ;
                assert(forall|j: int| 0 <= j < i + 1 - start ==> is_digit(ds[j]));
                let sds = if text@.len() > 0 && (text@[0] == '-' || text@[0] == '+') {
                    text@.drop_first()
                } else {
                    text@
                };
                assert(sds =~= ds);
                if all_digits(ds) {
                    lemma_digits_value_grows(ds, i + 1 - start);
                    assert(digits_value(ds) > bound);
                }
            }
            return None;
        }
        acc = acc * 10 + d;
        i = i + 1;
    }
    proof {
        assert(ds.take(n - start) =~= ds);
    }
    let v: i64 = if negative {
        if acc == 9_223_372_036_854_775_808 {
            i64::MIN
        } else {
            -(acc as i64)
        }
    } else {
        acc as i64
    };
    Some(v)
}

/// The page size of a check-history request: the `limit` parameter when it
/// reads as an integer, else 50.
pub fn page_limit(limit: Option<&str>) -> (r: i64)
    ensures
        r == match limit {
            Some(t) => match i64_of_text(t@) {
                Some(v) => v,
                None => 50,
            },
            None => 50,
        },
{
    match limit {
        Some(t) => match parse_i64(t) {
            Some(v) => v,
            None => 50,
        },
        None => 50,
    }
}

/// Which slice of a service's check history a request asks for.
#[derive(Debug)]
pub enum ChecksQuery {
    /// The newest `limit` results.
    Latest { limit: i64 },
    /// The newest `limit` results older than the result `before_id`.
    Before { before_id: String, limit: i64 },
}

/// Reads the `limit` and `before_id` parameters of a check-history request.
pub fn plan_checks_query(limit: Option<&str>, before_id: Option<&str>) -> (r: ChecksQuery)
    ensures
        match before_id {
            None => r matches ChecksQuery::Latest { limit: l } && l == page_limit_of(limit),
            Some(b) => r matches ChecksQuery::Before { before_id: id, limit: l } && id@ == b@ && l
                == page_limit_of(limit),
        },
{
    let l = page_limit(limit);
    match before_id {
        None => ChecksQuery::Latest { limit: l },
        Some(b) => ChecksQuery::Before { before_id: String::from_str(b), limit: l },
    }
}

/// The page size `page_limit` computes.
pub open spec fn page_limit_of(limit: Option<&str>) -> i64 {
    match limit {
        Some(t) => match i64_of_text(t@) {
            Some(v) => v,
            None => 50,
        },
        None => 50,
    }
}

/// The days an uptime window spans: `24h` is 1, `30d` 30, `90d` 90, and
/// anything else 7.
pub open spec fn window_days(window: Seq<char>) -> i64 {
    if window == "24h"@ {
        1
    } else if window == "30d"@ {
        30
    } else if window == "90d"@ {
        90
    } else {
        7
    }
}

/// The uptime window a request names (`7d` when it names none) and the
/// number of days it spans.
pub fn uptime_window(window: Option<&str>) -> (r: (String, i64))
    ensures
        r.0@ == match window {
            Some(w) => w@,
            None => "7d"@,
        },
        r.1 == window_days(r.0@),
{
    let w = match window {
        Some(w) => w,
        None => "7d",
    };
    let days: i64 = if str_eq(w, "24h") {
        1
    } else if str_eq(w, "30d") {
        30
    } else if str_eq(w, "90d") {
        90
    } else {
        7
    };
    (String::from_str(w), days)
}

/// The stored, editable settings of a service.
#[derive(Debug)]
pub struct ServiceSettings {
    pub name: String,
    /// The configuration as JSON text.
    pub config: String,
    pub interval_secs: i64,
    pub enabled: bool,
}

/// A partial update of a service; absent fields are left as they are.
#[derive(Debug)]
pub struct UpdateService {
    pub name: Option<String>,
    /// The new configuration, as JSON text.
    pub config: Option<String>,
    pub interval_secs: Option<i64>,
    pub enabled: Option<bool>,
    /// `Some(ids)` replaces the service's systems; `None` keeps them.
    pub system_ids: Option<Vec<String>>,
}

/// What happens to a service's worker after an update.
#[derive(Debug, Clone, Copy, PartialEq, Eq, Structural)]
pub enum WorkerCommand {
    /// (Re)start the worker.
    Spawn,
    /// Stop the worker.
    Abort,
}

/// Applies an update to a service's settings and says what happens to its
/// worker: restarted when the service ends up enabled, stopped otherwise.
pub fn apply_service_update(current: ServiceSettings, update: &UpdateService) -> (r: (ServiceSettings, WorkerCommand))
    ensures
        r.0.name@ == match update.name {
            Some(n) => n@,
            None => current.name@,
        },
        r.0.config@ == match update.config {
            Some(c) => c@,
            None => current.config@,
        },
        r.0.interval_secs == match update.interval_secs {
            Some(i) => i,
            None => current.interval_secs,
        },
        r.0.enabled == match update.enabled {
            Some(e) => e,
            None => current.enabled,
        },
        r.1 == if r.0.enabled {
            WorkerCommand::Spawn
        } else {
            WorkerCommand::Abort
        },
{
    let name = match &update.name {
        Some(n) => n.clone(),
        None => current.name,
    };
    let config = match &update.config {
        Some(c) => c.clone(),
        None => current.config,
    };
    let interval_secs = match update.interval_secs {
        Some(i) => i,
        None => current.interval_secs,
    };
    let enabled = match update.enabled {
        Some(e) => e,
        None => current.enabled,
    };
    let command = if enabled {
        WorkerCommand::Spawn
    } else {
        WorkerCommand::Abort
    };
    (ServiceSettings { name, config, interval_secs, enabled }, command)
}

/// A partial update of a system; absent fields are left as they are.
#[derive(Debug)]
pub struct UpdateSystem {
    pub name: Option<String>,
    pub description: Option<String>,
}

/// Applies an update to a system's name and description.
pub fn apply_system_update(name: String, description: Option<String>, update: &UpdateSystem) -> (r: (
    String,
    Option<String>,
))
    ensures
        r.0@ == match update.name {
            Some(n) => n@,
            None => name@,
        },
        r.1 == match update.description {
            Some(d) => Some(d),
            None => description,
        },
{
    let new_name = match &update.name {
        Some(n) => n.clone(),
        None => name,
    };
    let new_description = match &update.description {
        Some(d) => Some(d.clone()),
        None => description,
    };
    (new_name, new_description)
}

/// A request to create a service.
#[derive(Debug)]
pub struct CreateService {
    pub name: String,
    pub service_type: String,
    pub config: JsonValue,
    pub interval_secs: Option<i64>,
    pub system_ids: Option<Vec<String>>,
}

/// Checks a request to create a service: its type and configuration must
/// build a checker, whose refusal becomes the text of a bad-request answer;
/// on success, the service's check interval (60 seconds unless given).
pub fn plan_new_service(body: &CreateService) -> (r: Result<i64, String>)
    ensures
        exists|b: Result<ServiceChecker, crate::checkers::ConfigError>| #[trigger] checker_built(
            body.service_type@,
            body.config,
            b,
        ) && match b {
            Ok(_) => r == Ok::<i64, String>(
                match body.interval_secs {
                    Some(i) => i,
                    None => 60,
                },
            ),
            Err(e) => r matches Err(m) && m@ == config_error_text(e),
        },
{
    let interval = match body.interval_secs {
        Some(i) => i,
        None => 60,
    };
    let built = build_checker(body.service_type.as_str(), &body.config);
    let ghost b = built;
    match built {
        Ok(_) => Ok(interval),
        Err(e) => Err(e.message()),
    }
}

/// The health of a system from the latest status of each of its services:
/// unknown with no statuses, down if any is down, else degraded if any is
/// degraded, else up.
pub open spec fn health_of(statuses: Seq<Seq<char>>) -> Seq<char> {
    if statuses.len() == 0 {
        "unknown"@
    } else if exists|i: int| 0 <= i < statuses.len() && statuses[i] == "down"@ {
        "down"@
    } else if exists|i: int| 0 <= i < statuses.len() && statuses[i] == "degraded"@ {
        "degraded"@
    } else {
        "up"@
    }
}

/// Law: a system with no statuses is unknown; one with any down service is
/// down, whatever else it holds; otherwise any degraded service makes it
/// degraded; otherwise it is up. The health depends only on which statuses
/// occur, not on their order or on how often each occurs.
pub proof fn lemma_health_is_the_worst(statuses: Seq<Seq<char>>, other: Seq<Seq<char>>, i: int)
    ensures
        statuses.len() == 0 ==> health_of(statuses) == "unknown"@,
        0 <= i < statuses.len() && statuses[i] == "down"@ ==> health_of(statuses) == "down"@,
        0 <= i < statuses.len() && statuses[i] == "degraded"@ ==> (health_of(statuses) == "down"@
            || health_of(statuses) == "degraded"@),
        0 <= i < statuses.len() && statuses[i] == "degraded"@ && !statuses.contains("down"@) ==> health_of(
            statuses,
        ) == "degraded"@,
        statuses.len() > 0 && !statuses.contains("down"@) && !statuses.contains("degraded"@) ==> health_of(
            statuses,
        ) == "up"@,
        statuses.to_multiset() == other.to_multiset() ==> health_of(statuses) == health_of(other),
{
    statuses.to_multiset_ensures();
    other.to_multiset_ensures();
    if statuses.to_multiset() == other.to_multiset() {
        assert(statuses.len() == other.len());
        assert(statuses.to_multiset().count("down"@) == other.to_multiset().count("down"@));
        assert(statuses.to_multiset().count("degraded"@) == other.to_multiset().count("degraded"@));
        assert(statuses.contains("down"@) == other.contains("down"@));
        assert(statuses.contains("degraded"@) == other.contains("degraded"@));
        assert((exists|j: int| 0 <= j < statuses.len() && statuses[j] == "down"@) == statuses.contains("down"@));
        assert((exists|j: int| 0 <= j < other.len() && other[j] == "down"@) == other.contains("down"@));
        assert((exists|j: int| 0 <= j < statuses.len() && statuses[j] == "degraded"@) == statuses.contains(
            "degraded"@,
        ));
        assert((exists|j: int| 0 <= j < other.len() && other[j] == "degraded"@) == other.contains(
            "degraded"@,
        ));
    }
    if 0 <= i < statuses.len() && statuses[i] == "degraded"@ {
        assert(statuses.contains("degraded"@));
    }
    if !statuses.contains("down"@) {
        assert(!(exists|j: int| 0 <= j < statuses.len() && statuses[j] == "down"@)) by {
            if exists|j: int| 0 <= j < statuses.len() && statuses[j] == "down"@ {
                let j = choose|j: int| 0 <= j < statuses.len() && statuses[j] == "down"@;
                assert(statuses.contains("down"@));
            }
        }
    }
    if !statuses.contains("degraded"@) {
        assert(!(exists|j: int| 0 <= j < statuses.len() && statuses[j] == "degraded"@)) by {
            if exists|j: int| 0 <= j < statuses.len() && statuses[j] == "degraded"@ {
                let j = choose|j: int| 0 <= j < statuses.len() && statuses[j] == "degraded"@;
                assert(statuses.contains("degraded"@));
            }
        }
    }
}

/// Computes `health_of` for the latest statuses of a system's services.
pub fn derive_health(statuses: &Vec<String>) -> (r: &'static str)
    ensures
        r@ == health_of(statuses@.map_values(|s: String| s@)),
        statuses@.len() == 0 ==> r@ == "unknown"@,
        (exists|i: int| 0 <= i < statuses@.len() && #[trigger] statuses@[i]@ == "down"@) ==> r@ == "down"@,
{
    let ghost views = statuses@.map_values(|s: String| s@);
    if statuses.len() == 0 {
        return "unknown";
    }
    let down = String::from_str("down");
    let degraded = String::from_str("degraded");
    let mut worst_degraded = false;
    let n = statuses.len();
    for i in 0..n
        invariant
            n == statuses@.len(),
            views == statuses@.map_values(|s: String| s@),
            down@ == "down"@,
            degraded@ == "degraded"@,
            forall|j: int| 0 <= j < i ==> views[j] != "down"@,
            worst_degraded == exists|j: int| 0 <= j < i && views[j] == "degraded"@,
    {
        if statuses[i] == down {
            assert(views[i as int] == "down"@);
            return "down";
        }
        if statuses[i] == degraded {
            worst_degraded = true;
            assert(views[i as int] == "degraded"@);
        }
    }
    proof {
        assert forall|i: int| 0 <= i < statuses@.len() implies #[trigger] statuses@[i]@ != "down"@ by {
            assert(views[i] == statuses@[i]@);
        }
    }
    if worst_degraded {
        "degraded"
    } else {
        "up"
    }
}

} // verus!
