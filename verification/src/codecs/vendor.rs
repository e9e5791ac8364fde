//! Which vendor makes the encoder that a codec name stands for.

use crate::text::{contains, has_substring};
use vstd::prelude::*;

verus! {

/// The makers of the hardware encoders.
#[derive(Debug, Clone, Copy, PartialEq, Eq, Structural)]
pub enum Vendor {
    Nvidia,
    AMD,
    IntelQSV,
    Apple,
    Unknown,
}

/// The vendor that a codec name points to: the first of NVENC, AMF, Quick
/// Sync and VideoToolbox whose mark stands in the name.
pub open spec fn vendor_of(codec: Seq<char>) -> Vendor {
    if has_substring(codec, "nvenc"@) {
        Vendor::Nvidia
    } else if has_substring(codec, "amf"@) {
        Vendor::AMD
    } else if has_substring(codec, "h264_qsv"@) || has_substring(codec, "hevc_qsv"@)
        || has_substring(codec, "av1_qsv"@) {
        Vendor::IntelQSV
    } else if has_substring(codec, "videotoolbox"@) {
        Vendor::Apple
    } else {
        Vendor::Unknown
    }
}

/// The vendor that a codec name points to.
pub fn get_vendor_for_codec(codec: &String) -> (r: Vendor)
    ensures
        r == vendor_of(codec@),
{
    let name = codec.as_str();
    if contains(name, "nvenc") {
        Vendor::Nvidia
    } else if contains(name, "amf") {
        Vendor::AMD
    } else if contains(name, "h264_qsv") || contains(name, "hevc_qsv") || contains(
        name,
        "av1_qsv",
    ) {
        Vendor::IntelQSV
    } else if contains(name, "videotoolbox") {
        Vendor::Apple
    } else {
        Vendor::Unknown
    }
}

} // verus!
