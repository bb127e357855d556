pub mod ai;
pub mod config;
pub mod generator;
pub mod plugin;
pub mod text;
pub mod workspace;
