pub mod command;
pub mod config;
pub mod report;
pub mod scheduler;
pub mod supervisor;
