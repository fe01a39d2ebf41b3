pub mod render;
pub mod runner;
