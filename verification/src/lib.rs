//! Instructions of the Fe mid-level IR and the checks the semantic pass makes
//! on a function definition, with their behaviour stated as contracts.

pub mod builtins;
pub mod functions;
pub mod ids;
pub mod inst;
pub mod laws;
