pub mod runner;
pub mod templates;

pub use runner::EmitReport;
