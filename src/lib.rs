//! Finite state machines whose legal transitions are checked when the crate
//! is verified: a transition is only accepted where its edge is declared.
pub mod sample;
pub mod state;

pub use state::{IntoState, NextState, State, StateMachine};
