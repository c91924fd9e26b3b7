pub mod actor;
pub mod component;
pub mod game;
