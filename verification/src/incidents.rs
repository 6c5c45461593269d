//! Incident tracking: after every check the monitor opens an incident when a
//! service stops being up and resolves it when the service is up again.
use vstd::prelude::*;
use crate::checkers::CheckStatus;

verus! {

/// A request to resolve an incident by hand, with optional notes.
#[derive(Debug)]
pub struct ResolveIncident {
    pub notes: Option<String>,
}

/// What to do to the incident table after a check.
#[derive(Debug, PartialEq, Eq)]
pub enum IncidentAction {
    /// Nothing changes.
    Keep,
    /// Open a new incident triggered by this (non-up) status.
    Open { trigger_status: CheckStatus },
    /// Resolve the open incident with this id.
    Resolve { incident_id: String },
}

/// Whether `r` is the incident action for a check with status `new_status`
/// on a service whose open incident is `open_incident`: open one when there
/// is none and the service is not up; resolve it when there is one and the
/// service is up; otherwise change nothing.
pub open spec fn is_transition(open_incident: Option<String>, new_status: CheckStatus, r: IncidentAction) -> bool {
    match open_incident {
        None => if new_status == CheckStatus::Up {
            r == IncidentAction::Keep
        } else {
            r == (IncidentAction::Open { trigger_status: new_status })
        },
        Some(id) => if new_status == CheckStatus::Up {
            r matches IncidentAction::Resolve { incident_id } && incident_id@ == id@
        } else {
            r == IncidentAction::Keep
        },
    }
}

/// Decides the incident action for a new check status, given the id of the
/// service's open incident, if any.
pub fn incident_transition(open_incident: Option<String>, new_status: CheckStatus) -> (r: IncidentAction)
    ensures
        is_transition(open_incident, new_status, r),
{
    match open_incident {
        None => match new_status {
            CheckStatus::Up => IncidentAction::Keep,
            _ => IncidentAction::Open { trigger_status: new_status },
        },
        Some(id) => match new_status {
            CheckStatus::Up => IncidentAction::Resolve { incident_id: id },
            _ => IncidentAction::Keep,
        },
    }
}

/// Whether a service has an open incident after `action` is applied to a
/// state where it had one exactly when `was_open`.
pub open spec fn open_after(was_open: bool, action: IncidentAction) -> bool {
    match action {
        IncidentAction::Keep => was_open,
        IncidentAction::Open { .. } => true,
        IncidentAction::Resolve { .. } => false,
    }
}

/// Law: after every check a service has an open incident exactly when that
/// check's status is not up; an incident is never opened while another is
/// open, and only an up status resolves one.
pub proof fn lemma_open_iff_not_up(open_incident: Option<String>, new_status: CheckStatus, r: IncidentAction)
    requires
        is_transition(open_incident, new_status, r),
    ensures
        open_after(open_incident is Some, r) == (new_status != CheckStatus::Up),
        open_incident is Some ==> !(r is Open),
        r is Resolve ==> new_status == CheckStatus::Up,
{
}

} // verus!
