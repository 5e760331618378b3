pub mod wizard;
pub mod screens;
pub mod manual;
pub mod menus;
pub mod disk;
pub mod partition_menu;
pub mod review;
pub mod regional;
