pub mod config_engine;
pub mod disk_setup;
pub mod install;
pub mod disk_manager;
pub mod mappers;
pub mod pages;
pub mod preflight;
pub mod review;
pub mod services;
pub mod settings;
pub mod state;
