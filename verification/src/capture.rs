//! Classification of an HTTP status code at capture time.

use vstd::prelude::*;

verus! {

/// The two-valued tag recorded once per captured response: `Success` when the
/// original HTTP status code was in the success range at capture time,
/// `Failure` otherwise. It is fixed at construction and never re-derived from
/// the body.
#[derive(Clone, Copy, Debug, PartialEq, Eq, Structural)]
pub enum Disposition {
    Success,
    Failure,
}

/// What a capture of a response with a given status code must do: which
/// disposition to record, and whether the transport's error-escalation check
/// must run before the body is retrieved.
#[derive(Clone, Copy, Debug, PartialEq, Eq, Structural)]
pub struct CapturePlan {
    pub disposition: Disposition,
    pub escalate: bool,
}

/// A status code in the HTTP success range.
pub open spec fn is_success_status(status: u16) -> bool {
    200 <= status < 300
}

/// A status code in the HTTP server-error range.
pub open spec fn is_server_error_status(status: u16) -> bool {
    500 <= status < 600
}

/// The disposition implied by a status code: `Success` exactly for the
/// success range, `Failure` for every other status.
pub open spec fn disposition_of_status(status: u16) -> Disposition {
    if is_success_status(status) {
        Disposition::Success
    } else {
        Disposition::Failure
    }
}

/// Inspect a status code once, at capture time.
///
/// The disposition is `Success` exactly for 2xx statuses; escalation is
/// demanded exactly for 5xx statuses. Other non-success statuses (for
/// example 4xx) are ordinary `Failure` dispositions whose body is still
/// captured: only server errors escalate, deliberately.
pub fn capture_plan(status: u16) -> (plan: CapturePlan)
    ensures
        plan.disposition == disposition_of_status(status),
        plan.escalate == is_server_error_status(status),
{
    let disposition = if 200 <= status && status < 300 {
        Disposition::Success
    } else {
        Disposition::Failure
    };
    CapturePlan { disposition: disposition, escalate: 500 <= status && status < 600 }
}

} // verus!
