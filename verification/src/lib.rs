pub mod text;
pub mod installer;
pub mod gui;
pub mod cli;
pub mod system;
