//! The identity context attached to a request by an upstream
//! authentication step.

use vstd::prelude::*;

verus! {

/// Per-request identity context. An upstream authentication component
/// attaches one of these to the request before this layer runs; it is
/// read once by the interceptor and never mutated.
///
/// A non-empty `subject` marks an authenticated caller; an empty
/// `subject` is treated exactly like an absent identity context.
/// `domain` is used only by multi-tenant policy models.
#[derive(Clone)]
pub struct CasbinVals {
    pub subject: String,
    pub domain: Option<String>,
}

impl CasbinVals {
    pub fn new(subject: String, domain: Option<String>) -> (v: CasbinVals)
        ensures
            v.subject == subject,
            v.domain == domain,
    {
        CasbinVals { subject, domain }
    }
}

/// An identity context authenticates the caller exactly when it is
/// present and its subject is non-empty.
pub open spec fn is_authenticated(vals: Option<CasbinVals>) -> bool {
    match vals {
        Some(v) => v.subject@.len() > 0,
        None => false,
    }
}

/// An absent identity context never authenticates the caller, and neither
/// does one whose subject is empty, whatever its domain holds: the two are
/// indistinguishable to the rest of this layer.
pub proof fn lemma_empty_subject_unauthenticated(v: CasbinVals)
    ensures
        v.subject@.len() == 0 ==> !is_authenticated(Some(v)),
        !is_authenticated(None::<CasbinVals>),
{
}

} // verus!
