//! Reading the encoder's progress stream: every line of the form
//! `frame=<number>` carries the count of frames encoded so far.

use crate::engine::progressbar::ProgressSample;
use crate::ffmpeg::report_files::{capture_group, first_group};
use crate::text::{contains, has_substring, parse_u64, parse_unsigned, ParseError};
use vstd::prelude::*;

verus! {

/// The pattern of a progress line that holds a frame count.
pub const FRAME_PATTERN: &'static str = "^frame=([0-9]+)";

/// What a frame count text reads as.
pub open spec fn frame_result(digits: Seq<char>) -> Result<u64, ParseError> {
    match parse_unsigned(digits, u64::MAX as nat) {
        Ok(v) => Ok(v as u64),
        Err(e) => Err(e),
    }
}

/// Whether a line speaks of frames at all.
pub fn is_frame_line(input: &str) -> (r: bool)
    ensures
        r == has_substring(input@, "frame="@),
{
    contains(input, "frame=")
}

/// The frame count of a progress line: the number that the first group of
/// the frame pattern holds.
pub fn extract_frame(line: &str) -> (r: Result<u64, ParseError>)
    ensures
        r == frame_result(first_group(line@, FRAME_PATTERN@)),
{
    let digits = capture_group(line, FRAME_PATTERN);
    parse_u64(digits.as_str())
}

/// The frame count that a line of the progress stream carries, if it
/// carries one.
pub open spec fn frame_of_line(line: Seq<char>) -> Option<u64> {
    if has_substring(line, "frame="@) {
        match frame_result(first_group(line, FRAME_PATTERN@)) {
            Ok(frame) => Some(frame),
            Err(_) => None,
        }
    } else {
        None
    }
}

/// Takes one line of the progress stream into the frame counter. A line
/// that carries a frame count moves the counter on; any other line is
/// ignored.
pub fn read_progress_line(counter: &mut ProgressSample, line: &str)
    ensures
        *final(counter) == (match frame_of_line(line@) {
            Some(frame) => ProgressSample { frame, previous_frame: old(counter).frame },
            None => *old(counter),
        }),
{
    if is_frame_line(line) {
        match extract_frame(line) {
            Ok(frame) => {
                counter.record(frame);
            },
            Err(_) => {},
        }
    }
}

} // verus!
