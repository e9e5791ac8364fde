//! The encoders that can be searched and the input files of the standard
//! benchmark.

use crate::text::same_text;
use vstd::prelude::*;

verus! {

/// The encoders that can be searched.
pub open spec fn supported_encoders() -> Seq<&'static str> {
    seq!["h264_nvenc", "hevc_nvenc", "h264_amf", "hevc_amf", "h264_qsv", "hevc_qsv", "av1_qsv"]
}

/// The input files of the standard benchmark.
pub open spec fn supported_inputs() -> Seq<&'static str> {
    seq![
        "720-60.y4m",
        "720-120.y4m",
        "1080-60.y4m",
        "1080-120.y4m",
        "2k-60.y4m",
        "2k-120.y4m",
        "4k-60.y4m",
        "4k-120.y4m",
    ]
}

/// Whether `name` is among `names`.
pub open spec fn names_hold(names: Seq<&'static str>, name: Seq<char>) -> bool {
    exists|i: int| 0 <= i < names.len() && (#[trigger] names[i])@ == name
}

/// The encoders that can be searched.
pub fn get_supported_encoders() -> (r: [&'static str; 7])
    ensures
        r@ == supported_encoders(),
{
    let r = ["h264_nvenc", "hevc_nvenc", "h264_amf", "hevc_amf", "h264_qsv", "hevc_qsv", "av1_qsv"];
    assert(r@ =~= supported_encoders());
    r
}

/// The input files of the standard benchmark.
pub fn get_supported_inputs() -> (r: [&'static str; 8])
    ensures
        r@ == supported_inputs(),
{
    let r = [
        "720-60.y4m",
        "720-120.y4m",
        "1080-60.y4m",
        "1080-120.y4m",
        "2k-60.y4m",
        "2k-120.y4m",
        "4k-60.y4m",
        "4k-120.y4m",
    ];
    assert(r@ =~= supported_inputs());
    r
}

/// Whether an encoder is among those that can be searched.
pub fn is_encoder_supported(potential_encoder: &String) -> (r: bool)
    ensures
        r == names_hold(supported_encoders(), potential_encoder@),
{
    let encoders = get_supported_encoders();
    let mut i: usize = 0;
    while i < 7
        invariant
            i <= 7,
            encoders@ == supported_encoders(),
            forall|j: int| 0 <= j < i ==> (#[trigger] encoders@[j])@ != potential_encoder@,
        decreases 7 - i,
    {
        if same_text(encoders[i], potential_encoder.as_str()) {
            return true;
        }
        i += 1;
    }
    false
}

} // verus!
