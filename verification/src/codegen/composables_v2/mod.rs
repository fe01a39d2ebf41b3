pub mod naming;
pub mod render;
pub mod runner;
