//! Hooks: commands that are run as the plan and the tasks of a turn go through their lives.

pub mod common;
pub mod plan_lifecycle;
pub mod task_lifecycle;
