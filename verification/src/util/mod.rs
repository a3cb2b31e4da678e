pub mod command_helper;
pub mod text;
