//! A minimal survival simulation: one character with three vital stats
//! (health, nutrition, oxygen), mutated in place by discrete user actions
//! and by the passage of time, plus the control state a driving loop needs.

pub mod entities;
pub mod session;
