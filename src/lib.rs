//! A stake-on-a-commitment engine: a creator stakes value on a challenge,
//! submits evidence, a panel of verifiers votes, and the escrowed funds are
//! distributed by exact basis-point arithmetic once the dispute window closes.

pub mod constants;
pub mod errors;
pub mod state;
pub mod fees;
pub mod ledger;
pub mod instructions;
pub mod claim;
pub mod laws;
