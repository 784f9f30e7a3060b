pub mod factory;
pub mod market;
