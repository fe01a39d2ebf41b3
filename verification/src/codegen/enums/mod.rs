pub mod meta;

pub mod scan;
pub mod render;
pub mod runner;
