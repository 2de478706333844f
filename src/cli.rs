pub mod args;
pub mod output;
