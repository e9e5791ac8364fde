//! What the command line asks for, and whether it can be done.

pub mod benchmark;
pub mod benchmark_cli;
pub mod cli_util;
pub mod permutor;
pub mod permutor_cli;
pub mod supported;
