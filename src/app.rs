pub mod cmd;
pub mod handler;
