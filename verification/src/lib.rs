pub mod interpreter;
pub mod laws;
pub mod semantics;
