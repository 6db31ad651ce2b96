//! The plan, execute, critique, store and adapt loop of the agent runtime.
pub mod runtime;
pub mod state;
