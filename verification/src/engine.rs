pub mod browser;
pub mod engine;
pub mod renderer;
