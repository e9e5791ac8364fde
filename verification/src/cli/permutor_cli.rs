//! The options of the search.

use crate::cli::cli_util::{standard_check, standard_cli_check, CliCheck};
use vstd::prelude::*;

verus! {

/// What the search was asked to do.
pub struct PermutorCli {
    pub encoder: String,
    /// The bitrate, in Mb/s, that the search starts at.
    pub bitrate: u32,
    pub check_quality: bool,
    pub allow_duplicate_scores: bool,
    pub detect_overload: bool,
    pub source_file: String,
    pub files_directory: String,
    pub log_output_directory: String,
    /// Whether only the first permutation is run.
    pub test_run: bool,
    /// The bitrate that the search goes up to; none to stay at one bitrate.
    pub max_bitrate_permutation: Option<u32>,
    pub verbose: bool,
    pub list_supported_encoders: bool,
    pub gpu: u8,
}

/// What the check of the search's options comes to: the shared check, and
/// then a source file must be named.
pub open spec fn permutor_check(
    show_encoders: bool,
    encoder: Seq<char>,
    source_file: Seq<char>,
    source_exists: bool,
) -> CliCheck {
    let shared = standard_check(show_encoders, encoder, source_file, source_exists);
    if shared != CliCheck::Passed {
        shared
    } else if source_file.len() == 0 {
        CliCheck::NoSourceFile
    } else {
        CliCheck::Passed
    }
}

impl PermutorCli {
    /// Checks the options. Where they pass with no largest bitrate, the
    /// largest bitrate becomes the bitrate itself.
    pub fn validate(&mut self, source_exists: bool) -> (r: CliCheck)
        ensures
            r == permutor_check(
                old(self).list_supported_encoders,
                old(self).encoder@,
                old(self).source_file@,
                source_exists,
            ),
            final(self).max_bitrate_permutation == (if r == CliCheck::Passed && old(self).max_bitrate_permutation is None {
                Some(old(self).bitrate)
            } else {
                old(self).max_bitrate_permutation
            }),
            final(self).encoder == old(self).encoder,
            final(self).bitrate == old(self).bitrate,
            final(self).check_quality == old(self).check_quality,
            final(self).allow_duplicate_scores == old(self).allow_duplicate_scores,
            final(self).detect_overload == old(self).detect_overload,
            final(self).source_file == old(self).source_file,
            final(self).files_directory == old(self).files_directory,
            final(self).log_output_directory == old(self).log_output_directory,
            final(self).test_run == old(self).test_run,
            final(self).verbose == old(self).verbose,
            final(self).list_supported_encoders == old(self).list_supported_encoders,
            final(self).gpu == old(self).gpu,
    {
        let shared = standard_cli_check(
            self.list_supported_encoders,
            &self.encoder,
            &self.source_file,
            source_exists,
        );
        match shared {
            CliCheck::Passed => {},
            _ => {
                return shared;
            },
        }
        if self.source_file.as_str().is_empty() {
            return CliCheck::NoSourceFile;
        }
        if self.max_bitrate_permutation.is_none() {
            self.max_bitrate_permutation = Some(self.bitrate);
        }
        CliCheck::Passed
    }

    /// Whether any option is set that is worth a line in the log.
    pub fn has_special_options(&self) -> (r: bool)
        ensures
            r == (self.check_quality || self.detect_overload || self.verbose || self.test_run
                || self.allow_duplicate_scores),
    {
        self.check_quality || self.detect_overload || self.verbose || self.test_run
            || self.allow_duplicate_scores
    }
}

} // verus!
