//! Execution core of an x86-64 emulator: register catalog, operand model,
//! machine state and operand evaluation.

pub mod execution;
pub mod instruction_set;
pub mod machine_state;
