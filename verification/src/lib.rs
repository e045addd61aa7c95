pub mod cli;
pub mod config;
pub mod distro;
pub mod json;
pub mod runner;
pub mod text;
