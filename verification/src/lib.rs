//! Authorization interception for an HTTP request pipeline.
//!
//! Given the identity context attached to a request by an upstream
//! authentication step, this library builds the evaluation query for a
//! casbin decision engine and maps the engine's three-way answer
//! (allow / deny / evaluation failure) to a terminal outcome: proceed to
//! the next stage, 401 Unauthorized, 403 Forbidden, or 502 Bad Gateway.
//! The evaluation call itself is made by the embedding layer, under
//! exclusive access to the engine, between those two verified halves.

pub mod engine;
pub mod identity;
pub mod outcome;
pub mod query;

pub use engine::enforcement_outcome;
pub use engine::engine_effect_supported;
pub use identity::CasbinVals;
pub use outcome::Evaluation;
pub use outcome::Outcome;
pub use query::plan_request;
pub use query::RequestPlan;
