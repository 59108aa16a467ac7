//! Verified core of a small relay that serves rendered pages through a shared
//! remote browser-automation session.
//!
//! The relay itself is thin plumbing: it accepts a target address, drives a
//! remote browser session through navigate / extract / reset, and returns the
//! markup. The part worth specifying is the decision logic, and that is what
//! this crate holds:
//!
//! - [`session`]: the single-slot session manager (lazy creation, liveness
//!   probing, replacement of dead sessions) and a model of the remote state a
//!   session carries between requests;
//! - [`handler`]: the request flow as a state machine from phase outcomes to
//!   the final response, together with the exact response texts.
//!
//! The remote calls themselves (session creation, navigation, page-source
//! retrieval, cookie clearing) are performed by an unverified driver loop that
//! asks these state machines what to do next and reports each outcome back.

pub mod handler;
pub mod session;
