//! One module per instruction of the named-role stablecoin program.
pub mod blacklist;
pub mod initialize;
pub mod mint;
pub mod pause;
pub mod roles;
