//! Reading the one line that the prober prints for a video stream: coded
//! width, coded height, frame rate as a fraction, and duration in frames,
//! separated by commas.

use crate::ffmpeg::metadata::MetaData;
use crate::text::{
    chars_of, parse_chars, parse_unsigned, split, split_fields, trim, trimmed, ParseError,
};
use vstd::prelude::*;

verus! {

/// The metadata that a probe line holds, if it has the four fields and each
/// is a number that fits. Of the frame rate only the numerator counts. White
/// space around a field is ignored; fields after the fourth are, too.
pub open spec fn metadata_of(line: Seq<char>) -> Option<MetaData> {
    let fields = split_fields(line, ',');
    if fields.len() < 4 {
        None
    } else {
        let rate = split_fields(fields[2], '/')[0];
        match (
            parse_unsigned(trimmed(rate), u32::MAX as nat),
            parse_unsigned(trimmed(fields[3]), u64::MAX as nat),
            parse_unsigned(trimmed(fields[0]), u32::MAX as nat),
            parse_unsigned(trimmed(fields[1]), u32::MAX as nat),
        ) {
            (Ok(fps), Ok(frames), Ok(width), Ok(height)) => Some(
                MetaData {
                    fps: fps as u32,
                    frames: frames as u64,
                    width: width as u32,
                    height: height as u32,
                },
            ),
            _ => None,
        }
    }
}

fn parse_field(field: &Vec<char>, max: u64) -> (r: Result<u64, ParseError>)
    ensures
        match parse_unsigned(trimmed(field@), max as nat) {
            Ok(v) => r == Ok::<u64, ParseError>(v as u64),
            Err(e) => r == Err::<u64, ParseError>(e),
        },
{
    let t = trim(field);
    parse_chars(&t, max)
}

/// Reads a probe line; `None` where it does not hold the four numbers.
pub fn try_extract_metadata(line: &str) -> (r: Option<MetaData>)
    ensures
        r == metadata_of(line@),
{
    let chars = chars_of(line);
    let fields = split(&chars, ',');
    if fields.len() < 4 {
        return None;
    }
    let rate_parts = split(&fields[2], '/');
    proof {
        lemma_split_has_a_field(fields@[2]@, '/');
    }
    let fps = parse_field(&rate_parts[0], 0xffff_ffff);
    let frames = parse_field(&fields[3], u64::MAX);
    let width = parse_field(&fields[0], 0xffff_ffff);
    let height = parse_field(&fields[1], 0xffff_ffff);
    match (fps, frames, width, height) {
        (Ok(fps), Ok(frames), Ok(width), Ok(height)) => Some(
            MetaData { fps: fps as u32, frames, width: width as u32, height: height as u32 },
        ),
        _ => None,
    }
}

/// A split always gives at least one field.
pub proof fn lemma_split_has_a_field(s: Seq<char>, sep: char)
    ensures
        split_fields(s, sep).len() >= 1,
    decreases s.len(),
{
    if s.len() > 0 {
        lemma_split_has_a_field(s.drop_last(), sep);
    }
}

/// Reads a probe line that holds the four numbers.
pub fn extract_metadata(line: String) -> (r: MetaData)
    requires
        metadata_of(line@) is Some,
    ensures
        Some(r) == metadata_of(line@),
{
    match try_extract_metadata(line.as_str()) {
        Some(metadata) => metadata,
        None => MetaData::new(),
    }
}

} // verus!
