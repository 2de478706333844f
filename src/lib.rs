//! A small `cat` front end: it validates the command line into a list of
//! file paths and turns the outcome of running the system's concatenation
//! program into categorized results.

/// Command-line parsing and the messages shown to the user.
pub mod cli;

/// Classification of external program runs and their reduction to output.
pub mod app;
