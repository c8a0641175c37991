//! The state of one conversation turn, and the hooks that follow its plan and its tasks.

pub mod active_turn;
pub mod hooks;
pub mod outside;
pub mod plan;
pub mod text;
pub mod turn_state;
pub mod waiters;
