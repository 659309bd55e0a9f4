use vstd::prelude::*;

verus! {

/// The answer to a health probe: the HTTP status and the JSON body.
#[derive(Clone, Debug, PartialEq, Eq)]
pub struct HealthReport {
    pub status: u16,
    pub body: String,
}

/// The body of the answer to a health probe.
pub open spec fn healthy_body() -> Seq<char> {
    "{\"status\":\"healthy\"}"@
}

/// Answers a health probe. The answer is always the same: status 200 and a
/// JSON object that says "healthy".
pub fn health_check() -> (report: HealthReport)
    ensures
        report.status == 200,
        report.body@ == healthy_body(),
{
    HealthReport { status: 200, body: String::from_str("{\"status\":\"healthy\"}") }
}

} // verus!
