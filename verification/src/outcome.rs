//! The three-way evaluation result and the terminal outcome of one
//! request.

use vstd::prelude::*;

verus! {

/// The decision engine's three-way result for one query. Deny and
/// evaluation failure are kept apart so that an unhealthy engine is never
/// reported as a policy denial.
#[derive(Clone, Copy, Debug, PartialEq, Eq)]
pub enum Evaluation {
    /// The policy grants the request.
    Allowed,
    /// The policy denies the request.
    Denied,
    /// The engine could not evaluate the query (for instance, the query's
    /// length does not match the model's request definition).
    Failed,
}

/// The interceptor's verdict on one request. Every variant but `Proceed`
/// is terminal; `Proceed` hands the unmodified request to the next stage.
#[derive(Clone, Copy, Debug, PartialEq, Eq)]
pub enum Outcome {
    /// Terminate with 401: no identity context, or an empty subject.
    Unauthorized,
    /// Terminate with 403: the policy denied the request.
    Forbidden,
    /// Terminate with 502: the engine failed to evaluate the query.
    BadGateway,
    /// Invoke the next stage with the original request and return its
    /// result verbatim.
    Proceed,
}

/// How an evaluation result is folded into an outcome: allow proceeds,
/// deny is forbidden, an evaluation failure is a bad gateway.
pub open spec fn outcome_of(e: Evaluation) -> Outcome {
    match e {
        Evaluation::Allowed => Outcome::Proceed,
        Evaluation::Denied => Outcome::Forbidden,
        Evaluation::Failed => Outcome::BadGateway,
    }
}

/// Maps the engine's three-way result to the request's outcome, exactly
/// as `outcome_of` states it.
pub fn outcome_for(e: &Evaluation) -> (o: Outcome)
    ensures
        o == outcome_of(*e),
{
    match e {
        Evaluation::Allowed => Outcome::Proceed,
        Evaluation::Denied => Outcome::Forbidden,
        Evaluation::Failed => Outcome::BadGateway,
    }
}

/// The HTTP status this layer answers with itself: 401, 403 or 502 for
/// the terminal outcomes, and none for `Proceed`, whose response comes
/// from the next stage.
pub fn terminal_status(o: &Outcome) -> (s: Option<u16>)
    ensures
        s == (match o {
            Outcome::Unauthorized => Some(401u16),
            Outcome::Forbidden => Some(403u16),
            Outcome::BadGateway => Some(502u16),
            Outcome::Proceed => None::<u16>,
        }),
{
    match o {
        Outcome::Unauthorized => Some(401),
        Outcome::Forbidden => Some(403),
        Outcome::BadGateway => Some(502),
        Outcome::Proceed => None,
    }
}

} // verus!
