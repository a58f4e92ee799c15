pub mod app_state;
pub mod blocks;
pub mod composer;
pub mod composer_keys;
pub mod content;
pub mod placeholder;
pub mod state;
pub mod state_laws;
pub mod tabs;
pub mod update;
