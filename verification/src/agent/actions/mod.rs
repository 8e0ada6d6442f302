//! What the agent does when it thinks and when it runs tools.

pub mod brain;
pub mod tools;
pub mod proofs;
