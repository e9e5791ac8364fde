//! The options of the standard benchmark.

use crate::cli::cli_util::{standard_check, standard_cli_check, CliCheck};
use vstd::prelude::*;
use vstd::string::StringExecFns;

verus! {

/// What the standard benchmark was asked to do.
pub struct BenchmarkCli {
    pub list_supported_encoders: bool,
    pub encoder: String,
    pub source_file: String,
    pub files_directory: String,
    pub verbose: bool,
    pub gpu: u8,
    pub decode: bool,
    /// Whether the options were asked for one by one instead of being
    /// given on the command line.
    pub was_ui_opened: bool,
}

/// What the check of the benchmark's options comes to: the shared check,
/// and then, where no source file was named, every standard input must be
/// there.
pub open spec fn benchmark_check(
    show_encoders: bool,
    encoder: Seq<char>,
    source_file: Seq<char>,
    source_exists: bool,
    all_files_present: bool,
) -> CliCheck {
    let shared = standard_check(show_encoders, encoder, source_file, source_exists);
    if shared != CliCheck::Passed {
        shared
    } else if source_file.len() == 0 && !all_files_present {
        CliCheck::MissingStandardFiles
    } else {
        CliCheck::Passed
    }
}

impl BenchmarkCli {
    /// Notes that the options were asked for one by one.
    pub fn set_ui_opened(&mut self)
        ensures
            final(self).was_ui_opened,
            final(self).list_supported_encoders == old(self).list_supported_encoders,
            final(self).encoder == old(self).encoder,
            final(self).source_file == old(self).source_file,
            final(self).files_directory == old(self).files_directory,
            final(self).verbose == old(self).verbose,
            final(self).gpu == old(self).gpu,
            final(self).decode == old(self).decode,
    {
        self.was_ui_opened = true;
    }

    /// The options before the user was asked for any.
    pub fn new() -> (r: Self)
        ensures
            !r.list_supported_encoders,
            r.encoder@ == Seq::<char>::empty(),
            r.source_file@ == Seq::<char>::empty(),
            r.files_directory@ == Seq::<char>::empty(),
            !r.verbose,
            r.gpu == 0,
            !r.decode,
            !r.was_ui_opened,
    {
        BenchmarkCli {
            list_supported_encoders: false,
            encoder: String::new(),
            source_file: String::new(),
            files_directory: String::new(),
            verbose: false,
            gpu: 0,
            decode: false,
            was_ui_opened: false,
        }
    }

    /// Checks the options. Where they pass with no source file but with a
    /// directory, the source file becomes the directory with a slash, under
    /// which the standard inputs are then found.
    pub fn validate(&mut self, source_exists: bool, all_files_present: bool) -> (r: CliCheck)
        ensures
            r == benchmark_check(
                old(self).list_supported_encoders,
                old(self).encoder@,
                old(self).source_file@,
                source_exists,
                all_files_present,
            ),
            final(self).source_file@ == (if r == CliCheck::Passed && old(self).source_file@.len()
                == 0 && old(self).files_directory@.len() != 0 {
                old(self).files_directory@ + "/"@
            } else {
                old(self).source_file@
            }),
            final(self).was_ui_opened == old(self).was_ui_opened,
            final(self).list_supported_encoders == old(self).list_supported_encoders,
            final(self).encoder == old(self).encoder,
            final(self).files_directory == old(self).files_directory,
            final(self).verbose == old(self).verbose,
            final(self).gpu == old(self).gpu,
            final(self).decode == old(self).decode,
    {
        let shared = standard_cli_check(
            self.list_supported_encoders,
            &self.encoder,
            &self.source_file,
            source_exists,
        );
        match shared {
            CliCheck::Passed => {},
            _ => {
                return shared;
            },
        }
        // Without a source file the benchmark runs on all its inputs.
        if self.source_file.as_str().is_empty() && !all_files_present {
            return CliCheck::MissingStandardFiles;
        }
        if self.source_file.as_str().is_empty() && !self.files_directory.as_str().is_empty() {
            let mut joined = self.files_directory.clone();
            joined.append("/");
            assert(joined@ =~= old(self).files_directory@ + "/"@);
            self.source_file = joined;
        }
        CliCheck::Passed
    }
}

} // verus!
