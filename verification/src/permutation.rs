//! One trial to run: an input, an encoder, its settings and a bitrate.

use crate::ffmpeg::metadata::MetaData;
use vstd::prelude::*;

verus! {

/// A trial as the search hands it to the runner.
pub struct Permutation {
    pub video_file: String,
    pub encoder: String,
    pub encoder_settings: String,
    pub bitrate: u32,
    pub metadata: MetaData,
    pub check_quality: bool,
    pub allow_duplicates: bool,
    pub detect_overload: bool,
    pub verbose: bool,
    /// Whether this is the decoding half of a trial that also decodes.
    pub decode_run: bool,
    pub ten_bit: bool,
    /// Whether the trial decodes at all.
    pub is_decoding: bool,
}

impl Clone for Permutation {
    fn clone(&self) -> (r: Self)
        ensures
            r == *self,
    {
        Permutation {
            video_file: self.video_file.clone(),
            encoder: self.encoder.clone(),
            encoder_settings: self.encoder_settings.clone(),
            bitrate: self.bitrate,
            metadata: self.metadata,
            check_quality: self.check_quality,
            allow_duplicates: self.allow_duplicates,
            detect_overload: self.detect_overload,
            verbose: self.verbose,
            decode_run: self.decode_run,
            ten_bit: self.ten_bit,
            is_decoding: self.is_decoding,
        }
    }
}

impl Permutation {
    /// Whether the trial can be scored: scoring needs an encode with
    /// settings.
    pub open spec fn wf(&self) -> bool {
        self.check_quality ==> self.encoder_settings@.len() > 0
    }

    /// A trial of `video_file` on `encoder` with nothing else set: no
    /// settings, bitrate 0, metadata not probed, every flag off.
    pub fn new(video_file: String, encoder: String) -> (r: Self)
        ensures
            r.video_file@ == video_file@,
            r.encoder@ == encoder@,
            r.encoder_settings@ == Seq::<char>::empty(),
            r.bitrate == 0,
            r.metadata == (MetaData { fps: 0, frames: 0, width: 0, height: 0 }),
            !r.check_quality,
            !r.allow_duplicates,
            !r.detect_overload,
            !r.verbose,
            !r.decode_run,
            !r.ten_bit,
            !r.is_decoding,
            r.wf(),
    {
        Permutation {
            video_file,
            encoder,
            encoder_settings: String::new(),
            bitrate: 0,
            metadata: MetaData::new(),
            check_quality: false,
            allow_duplicates: false,
            detect_overload: false,
            verbose: false,
            decode_run: false,
            is_decoding: false,
            ten_bit: false,
        }
    }

    /// Whether the video has to be probed before its metadata is known.
    pub fn needs_probe(&self) -> (r: bool)
        ensures
            r == (self.metadata.frames == 0),
    {
        self.metadata.is_empty()
    }

    /// The metadata of the video. Where none is held yet, `probed` is taken
    /// and kept; where some is held, `probed` is ignored.
    pub fn get_metadata(&mut self, probed: MetaData) -> (r: MetaData)
        ensures
            r == (if old(self).metadata.frames == 0 {
                probed
            } else {
                old(self).metadata
            }),
            final(self).metadata == r,
            final(self).video_file == old(self).video_file,
            final(self).encoder == old(self).encoder,
            final(self).encoder_settings == old(self).encoder_settings,
            final(self).bitrate == old(self).bitrate,
            final(self).check_quality == old(self).check_quality,
            final(self).allow_duplicates == old(self).allow_duplicates,
            final(self).detect_overload == old(self).detect_overload,
            final(self).verbose == old(self).verbose,
            final(self).decode_run == old(self).decode_run,
            final(self).ten_bit == old(self).ten_bit,
            final(self).is_decoding == old(self).is_decoding,
    {
        if self.metadata.is_empty() {
            self.metadata = probed;
        }
        self.metadata
    }
}

} // verus!
