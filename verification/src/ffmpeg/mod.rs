//! What is handed to the encoder process and what is read back from it.

pub mod args;
pub mod ffprobe;
pub mod metadata;
pub mod report_files;
