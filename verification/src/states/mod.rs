pub mod decisions;
pub mod paint;
