pub mod generator;
pub mod orchestrator;
pub mod providers;
pub mod run;
