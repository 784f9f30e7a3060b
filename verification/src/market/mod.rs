pub mod contract;
pub mod invariants;
pub mod laws;
pub mod liquidity;
pub mod order;
pub mod query;
pub mod quote;
pub mod settlement;
pub mod state;
