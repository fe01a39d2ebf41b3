pub mod input_map;
pub mod render;
