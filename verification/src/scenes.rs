//! The user-interface scenes.

pub mod main_menu;
pub mod splash;
