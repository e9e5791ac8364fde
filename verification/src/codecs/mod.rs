//! The candidate settings of each encoder family.

pub mod amf;
pub mod apple_silicon;
pub mod av1_qsv;
pub mod nvenc;
pub mod permute;
pub mod qsv;
pub mod resolutions;
pub mod vendor;
