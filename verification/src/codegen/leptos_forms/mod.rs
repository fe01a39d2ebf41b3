pub mod render;
pub mod runner;
pub mod selects;
