pub mod mcp;
pub mod scanner;
pub mod rust_items;
