//! What is known of a video file before it is encoded.

use crate::text::{decimal, push_decimal};
use vstd::prelude::*;
use vstd::string::StringExecFns;

verus! {

/// Frame rate, frame count and frame size of a video.
#[derive(Copy, Clone, Debug, PartialEq, Eq, Structural)]
pub struct MetaData {
    pub fps: u32,
    pub frames: u64,
    pub width: u32,
    pub height: u32,
}

impl MetaData {
    /// The resolution as a width, an `x` and a height.
    pub open spec fn res_text(&self) -> Seq<char> {
        decimal(self.width as nat) + "x"@ + decimal(self.height as nat)
    }

    /// A line that names every field.
    pub open spec fn text(&self) -> Seq<char> {
        "Video metadata: fps: "@ + decimal(self.fps as nat) + ", total_frames: "@ + decimal(
            self.frames as nat,
        ) + ", resolution: "@ + self.res_text()
    }

    /// The metadata of no video: every field is 0.
    pub fn new() -> (r: Self)
        ensures
            r == (MetaData { fps: 0, frames: 0, width: 0, height: 0 }),
    {
        MetaData { fps: 0, frames: 0, width: 0, height: 0 }
    }

    /// A line that names every field.
    pub fn to_string(&self) -> (r: String)
        ensures
            r@ == self.text(),
    {
        let mut out = String::from_str("Video metadata: fps: ");
        push_decimal(&mut out, self.fps as u64);
        out.append(", total_frames: ");
        push_decimal(&mut out, self.frames);
        out.append(", resolution: ");
        push_decimal(&mut out, self.width as u64);
        out.append("x");
        push_decimal(&mut out, self.height as u64);
        assert(out@ =~= self.text());
        out
    }

    /// The resolution as a width, an `x` and a height.
    pub fn get_res(&self) -> (r: String)
        ensures
            r@ == self.res_text(),
    {
        let mut out = String::new();
        push_decimal(&mut out, self.width as u64);
        out.append("x");
        push_decimal(&mut out, self.height as u64);
        assert(out@ =~= self.res_text());
        out
    }

    /// Whether nothing was probed yet: a video has at least one frame.
    pub fn is_empty(&self) -> (r: bool)
        ensures
            r == (self.frames == 0),
    {
        self.frames == 0
    }
}

} // verus!
