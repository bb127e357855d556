pub mod blueprint;
