//! The three vault operations, each a state machine that the caller drives:
//! it performs the action handed out and hands back what came of it.

pub mod deposit;
pub mod initialize_vault;
pub mod withdraw;
