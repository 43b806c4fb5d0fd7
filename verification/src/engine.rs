//! Reading the decision engine's configuration and mapping its answer.
//!
//! The engine itself — rule storage, matching, role resolution — is an
//! external collaborator. Its evaluation call is made by the embedding
//! layer, not here: casbin's matcher built-ins can abort the process on
//! pattern, policy and request combinations that no condition statable
//! over the engine value excludes, so a verified function cannot promise
//! to survive making that call. What this module verifies instead is
//! everything around the call: a probe for the one engine-only fault (a
//! policy-effect clause the effector cannot evaluate, on which it aborts
//! rather than erroring), and the exact reading of the engine's three-way
//! answer into the request's outcome.

use vstd::prelude::*;

use casbin::CoreApi;

use crate::outcome::{outcome_for, outcome_of, Evaluation, Outcome};

verus! {

#[verifier::external_type_specification]
#[verifier::external_body]
pub struct ExCachedEnforcer(casbin::CachedEnforcer);

#[verifier::external_type_specification]
#[verifier::external_body]
pub struct ExCasbinError(casbin::Error);

pub uninterp spec fn effect_clause_of(e: casbin::CachedEnforcer) -> Option<Seq<char>>;

/// Relies on casbin's `CoreApi::get_model`: hands out the model's
/// policy-effect clause exactly as the model loader stored it (with
/// aliases such as `p.eft` already rewritten to `p_eft`), or nothing when
/// the model carries no such clause. The clause is part of the engine
/// value, so the result is a function of the engine alone and bears a
/// name.
#[verifier::external_body]
fn effect_clause(engine: &casbin::CachedEnforcer) -> (c: Option<String>)
    ensures
        c.deep_view() == effect_clause_of(*engine),
{
    engine
        .get_model()
        .get_model()
        .get("e")
        .and_then(|section| section.get("e"))
        .map(|assertion| assertion.value.clone())
}

/// Whether the engine's policy-effect clause is one of the four casbin's
/// effector evaluates. On any other clause the effector aborts the
/// process instead of returning an error, and on a model with none the
/// evaluation errors, so an engine failing this test should be answered
/// as misconfigured — a bad gateway — without being consulted.
pub open spec fn effect_supported(e: casbin::CachedEnforcer) -> bool {
    match effect_clause_of(e) {
        Some(clause) => clause == "some(where (p_eft == allow))"@ || clause
            == "!some(where (p_eft == deny))"@ || clause
            == "some(where (p_eft == allow)) && !some(where (p_eft == deny))"@ || clause
            == "priority(p_eft) || deny"@,
        None => false,
    }
}

/// Decides `effect_supported` for a live engine, so that the embedding
/// layer can keep every query away from an engine whose evaluation would
/// abort on its effect clause — or probe an engine for health before
/// installing it.
pub fn engine_effect_supported(engine: &casbin::CachedEnforcer) -> (b: bool)
    ensures
        b == effect_supported(*engine),
{
    match effect_clause(engine) {
        Some(clause) => {
            let allow = String::from_str("some(where (p_eft == allow))");
            let not_deny = String::from_str("!some(where (p_eft == deny))");
            let allow_and_not_deny = String::from_str(
                "some(where (p_eft == allow)) && !some(where (p_eft == deny))",
            );
            let priority = String::from_str("priority(p_eft) || deny");
            clause == allow || clause == not_deny || clause == allow_and_not_deny || clause
                == priority
        }
        None => false,
    }
}

/// How the engine's raw answer reads as a three-way evaluation result:
/// `Ok(true)` allows, `Ok(false)` denies, and any error is an evaluation
/// failure.
pub open spec fn evaluation_of(r: Result<bool, casbin::Error>) -> Evaluation {
    match r {
        Ok(true) => Evaluation::Allowed,
        Ok(false) => Evaluation::Denied,
        Err(_) => Evaluation::Failed,
    }
}

/// The interceptor's reading of the engine's answer, exact for every
/// value the engine can return.
pub fn map_enforce_result(r: &Result<bool, casbin::Error>) -> (e: Evaluation)
    ensures
        e == evaluation_of(*r),
{
    match r {
        Ok(true) => Evaluation::Allowed,
        Ok(false) => Evaluation::Denied,
        Err(_) => Evaluation::Failed,
    }
}

/// The outcome owed for one engine answer: a granted query proceeds to
/// the next stage, a denied query is forbidden, and an evaluation error
/// is a bad gateway — exact for every value the engine can return, and
/// never an authorization failure, which is decided before the engine is
/// consulted.
pub fn enforcement_outcome(r: &Result<bool, casbin::Error>) -> (o: Outcome)
    ensures
        o == outcome_of(evaluation_of(*r)),
        o != Outcome::Unauthorized,
{
    let e = map_enforce_result(r);
    outcome_for(&e)
}

/// The mapping of the engine's answer, end to end: a granted query
/// proceeds to the next stage, a denied query is forbidden, and an
/// evaluation error is a bad gateway — never anything else, so an
/// engine fault cannot masquerade as a policy denial.
pub proof fn lemma_result_mapping(r: Result<bool, casbin::Error>)
    ensures
        outcome_of(evaluation_of(r)) == (match r {
            Ok(true) => Outcome::Proceed,
            Ok(false) => Outcome::Forbidden,
            Err(_) => Outcome::BadGateway,
        }),
        outcome_of(evaluation_of(r)) != Outcome::Unauthorized,
{
}

} // verus!
