//! One module per instruction of the bit-mask stablecoin program.
pub mod blacklist;
pub mod burn;
pub mod freeze;
pub mod initialize;
pub mod roles;
pub mod seize;
pub mod transfer_hook;
