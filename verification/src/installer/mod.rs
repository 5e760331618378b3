pub mod commands;
pub mod config_engine;
pub mod disk_manager;
pub mod layout_laws;
pub mod storage_plan;
pub mod install_worker;
pub mod outcome;
