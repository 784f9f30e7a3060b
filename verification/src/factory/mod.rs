pub mod contract;
pub mod execute;
pub mod invariants;
pub mod query;
pub mod state;
