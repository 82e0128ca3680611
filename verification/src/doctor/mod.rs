pub mod checks;
pub mod render;
pub mod report;
pub mod wrap;
