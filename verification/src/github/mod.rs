pub mod activity;
pub mod api;
pub mod assemble;
pub mod auth;
pub mod diff;
pub mod dto;
pub mod gh_cli;
pub mod graphql;
pub mod json;
pub mod transport;
pub mod mutations;
pub mod public_rest;
pub mod view;
