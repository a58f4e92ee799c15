pub mod app;
pub mod cli;
pub mod config;
pub mod control;
pub mod domain;
pub mod fetch;
pub mod github;
pub mod herdr;
pub mod input;
pub mod launch;
pub mod paths;
pub mod session;
pub mod settings;
pub mod text;
pub mod unicode;
