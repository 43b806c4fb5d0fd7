//! Building the evaluation query for one request.
//!
//! The decision engine expects an ordered sequence of strings whose
//! positions match its model's request definition: `[subject, domain,
//! path, action]` when the identity context carries a domain, and
//! `[subject, path, action]` when it does not.

use vstd::prelude::*;

use crate::identity::{is_authenticated, CasbinVals};

verus! {

/// The evaluation query owed to the decision engine for an authenticated
/// identity context: four positions with the domain, three without.
pub open spec fn query_of(v: CasbinVals, path: Seq<char>, action: Seq<char>) -> Seq<Seq<char>> {
    match v.domain {
        Some(d) => seq![v.subject@, d@, path, action],
        None => seq![v.subject@, path, action],
    }
}

/// What the interceptor decides before consulting the engine: reject the
/// request outright as unauthorized, or evaluate the given query.
pub enum RequestPlan {
    /// The identity context is absent or has an empty subject: terminate
    /// with 401 Unauthorized without consulting the engine.
    Reject,
    /// The caller is authenticated: submit this query to the engine.
    Evaluate(Vec<String>),
}

/// The interceptor's pre-evaluation work: read the identity context and
/// either reject the request as unauthorized or build the evaluation
/// query, with the path and action taken verbatim.
pub fn plan_request(vals: &Option<CasbinVals>, path: &str, action: &str) -> (p: RequestPlan)
    ensures
        !is_authenticated(*vals) ==> p == RequestPlan::Reject,
        is_authenticated(*vals) ==> (match p {
            RequestPlan::Evaluate(q) => q.deep_view() == query_of(vals->Some_0, path@, action@),
            RequestPlan::Reject => false,
        }),
{
    match vals {
        None => RequestPlan::Reject,
        Some(v) => {
            if v.subject.as_str().is_empty() {
                RequestPlan::Reject
            } else {
                let mut query: Vec<String> = Vec::new();
                query.push(v.subject.clone());
                match &v.domain {
                    Some(d) => {
                        query.push(d.clone());
                    }
                    None => {}
                }
                query.push(path.to_owned());
                query.push(action.to_owned());
                proof {
                    assert(query.deep_view() =~~= query_of(*v, path@, action@));
                }
                RequestPlan::Evaluate(query)
            }
        }
    }
}

} // verus!
