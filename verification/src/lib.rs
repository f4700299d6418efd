//! Poll-until combinators for test harnesses, as a verified state machine,
//! with the random-value and path helpers that such harnesses need.
//!
//! A polling session calls a probe again and again until the probe's answer
//! qualifies or a fixed budget of wall-clock time has run out. The session
//! itself never waits: it is told what happened and says what to do next.

pub mod combinators;
pub mod laws;
pub mod logging;
pub mod paths;
pub mod random;
pub mod session;
