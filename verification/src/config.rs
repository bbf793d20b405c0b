pub mod args;
pub mod cfg;
pub mod color;
pub mod text;
