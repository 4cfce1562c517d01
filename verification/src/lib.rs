//! Verified decision core for Neal-style univariate slice sampling.
//!
//! A slice sampler draws a new point from a target density by choosing a
//! vertical level under the density at the current point, building a
//! horizontal bracket believed to cover the slice at that level, and then
//! shrinking the bracket around rejected candidates until one lands above
//! the level. The real-valued arithmetic (density evaluations, bracket
//! endpoints, random draws) is inherently floating point and lives with the
//! caller; everything the algorithms *decide* — how expansion budgets are
//! split and spent, when expansion must stop, which bracket endpoint a
//! rejected candidate replaces, when a doubling candidate must additionally
//! pass the reverse bisection check, and how density evaluations are
//! counted — is implemented and proved here.
//!
//! A driver runs the numeric loop: it evaluates the density, compares the
//! result against the slice level, and reports the outcome of each
//! comparison as a boolean event to the state machines in this crate, which
//! answer with the next action. The contracts pin every answer down, so a
//! driver that follows them step by step performs exactly the published
//! algorithm's control flow.

pub mod univariate;
