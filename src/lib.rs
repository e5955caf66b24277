pub mod archive;
pub mod config;
pub mod extract;
pub mod install;
pub mod path;
pub mod removal;
pub mod text;
pub mod transfer;

pub use config::Config;
