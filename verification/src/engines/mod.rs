//! The engines that run driver scripts.
pub mod execution;
