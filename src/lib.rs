pub mod decimal;
pub mod harness;
pub mod loader;
pub mod messages;
pub mod network;
pub mod report;
pub mod runner;
pub mod shapes;
pub mod users;
