//! Static detection of suspicious patterns in upgradeable smart contracts,
//! working on a minimal model of the Solidity compiler's AST.

pub mod finding;
pub mod laws;
pub mod model;
pub mod rule_laws;
pub mod rules;
pub mod spec;
pub mod text;
