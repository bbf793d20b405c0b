pub mod actions;
pub mod registry;
pub mod terminal;
pub mod window;
