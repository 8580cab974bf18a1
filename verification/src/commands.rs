pub mod delete;
pub mod generate;
pub mod list;
pub mod rename;
pub mod setup;
