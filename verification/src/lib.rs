pub mod bring_up;
pub mod config;
pub mod fault;
pub mod sampling;
pub mod startup;
pub mod waiter;
