//! The checks that every command line passes before anything is run.

use crate::cli::supported::{
    get_supported_inputs, is_encoder_supported, names_hold, supported_encoders, supported_inputs,
};
use crate::codecs::permute::texts;
use crate::ffmpeg::args::Cli;
use crate::ffmpeg::metadata::MetaData;
use crate::text::{contains, decimal, has_substring, push_decimal, same_text};
use figlet_rs::FIGlet;
use vstd::prelude::*;
use vstd::string::StringExecFns;

verus! {

/// What the check of a command line comes to.
#[derive(Clone, Copy, Debug, PartialEq, Eq, Structural)]
pub enum CliCheck {
    /// The encoder is not installed or not on the path.
    NoFfmpeg,
    /// The prober is not installed or not on the path.
    NoFfprobe,
    /// The supported encoders were asked for: show them and leave.
    ListEncoders,
    /// No encoder was named.
    NoEncoder,
    /// The encoder that was named is not supported.
    UnsupportedEncoder,
    /// The source file that was named does not exist.
    MissingSourceFile,
    /// No source file was named where one is needed.
    NoSourceFile,
    /// The standard benchmark lacks some of its source files.
    MissingStandardFiles,
    /// Nothing stands in the way.
    Passed,
}

impl CliCheck {
    /// The status that the program ends with, if it ends here.
    pub fn exit_code(&self) -> (r: Option<i32>)
        ensures
            r == (if *self == CliCheck::Passed {
                None
            } else if *self == CliCheck::ListEncoders {
                Some(0i32)
            } else {
                Some(1i32)
            }),
    {
        match self {
            CliCheck::Passed => None,
            CliCheck::ListEncoders => Some(0),
            _ => Some(1),
        }
    }
}

/// Whether the program was started from a build directory.
pub fn is_dev(program: &str) -> (r: bool)
    ensures
        r == has_substring(program@, "target"@),
{
    contains(program, "target")
}

/// Where the video files are looked for: the directory that was named, or
/// else the directory above for a development build, or else this one.
pub fn get_video_files<'a>(source_file_directory: &'a str, is_dev: bool) -> (r: &'a str)
    ensures
        r@ == (if source_file_directory@.len() != 0 {
            source_file_directory@
        } else if is_dev {
            "../"@
        } else {
            "."@
        }),
{
    if !source_file_directory.is_empty() {
        source_file_directory
    } else if is_dev {
        "../"
    } else {
        "."
    }
}

/// Whether `name` is among the texts of `files`.
pub open spec fn files_hold(files: Seq<String>, name: Seq<char>) -> bool {
    exists|i: int| 0 <= i < files.len() && (#[trigger] files[i])@ == name
}

fn holds_file(files: &Vec<String>, name: &str) -> (r: bool)
    ensures
        r == files_hold(files@, name@),
{
    let n = files.len();
    let mut i: usize = 0;
    while i < n
        invariant
            i <= n,
            n == files@.len(),
            forall|j: int| 0 <= j < i ==> (#[trigger] files@[j])@ != name@,
        decreases n - i,
    {
        if same_text(files[i].as_str(), name) {
            return true;
        }
        i += 1;
    }
    false
}

/// Whether every input of the standard benchmark is among the files that
/// exist.
pub fn are_all_source_files_present(existing_video_files: &Vec<String>) -> (r: bool)
    ensures
        r == (forall|k: int|
            0 <= k < supported_inputs().len() ==> files_hold(
                existing_video_files@,
                (#[trigger] supported_inputs()[k])@,
            )),
{
    let inputs = get_supported_inputs();
    let mut k: usize = 0;
    while k < 8
        invariant
            k <= 8,
            inputs@ == supported_inputs(),
            forall|j: int|
                0 <= j < k ==> files_hold(existing_video_files@, (#[trigger] supported_inputs()[j])@),
        decreases 8 - k,
    {
        if !holds_file(existing_video_files, inputs[k]) {
            return false;
        }
        k += 1;
    }
    true
}

/// The path under which a source file is looked for: below the directory
/// where one was named.
pub open spec fn effective_path(source_file: Seq<char>, directory: Seq<char>) -> Seq<char> {
    if directory.len() != 0 {
        directory + "/"@ + source_file
    } else {
        source_file
    }
}

/// The path under which a source file is looked for.
pub fn effective_file_path(source_file: &String, source_files_directory: &String) -> (r: String)
    ensures
        r@ == effective_path(source_file@, source_files_directory@),
{
    if !source_files_directory.as_str().is_empty() {
        let mut path = source_files_directory.clone();
        path.append("/");
        path.append(source_file.as_str());
        assert(path@ =~= effective_path(source_file@, source_files_directory@));
        path
    } else {
        source_file.clone()
    }
}

/// Whether the environment can run anything: both programs must be there,
/// and the encoder is looked for first.
pub fn fail_if_environment_not_setup(ffmpeg_installed: bool, ffprobe_installed: bool) -> (r:
    CliCheck)
    ensures
        r == (if !ffmpeg_installed {
            CliCheck::NoFfmpeg
        } else if !ffprobe_installed {
            CliCheck::NoFfprobe
        } else {
            CliCheck::Passed
        }),
{
    if !ffmpeg_installed {
        CliCheck::NoFfmpeg
    } else if !ffprobe_installed {
        CliCheck::NoFfprobe
    } else {
        CliCheck::Passed
    }
}

/// What the check that all command lines share comes to. A request for the
/// list of encoders wins; then an encoder must be named and supported; then
/// a source file that is named must exist.
pub open spec fn standard_check(
    show_encoders: bool,
    encoder: Seq<char>,
    source_file: Seq<char>,
    source_exists: bool,
) -> CliCheck {
    if show_encoders {
        CliCheck::ListEncoders
    } else if encoder == "encoder"@ {
        CliCheck::NoEncoder
    } else if !names_hold(supported_encoders(), encoder) {
        CliCheck::UnsupportedEncoder
    } else if source_file.len() != 0 && !source_exists {
        CliCheck::MissingSourceFile
    } else {
        CliCheck::Passed
    }
}

/// Checks what all command lines share. `source_exists` says whether there
/// is a file at the effective path of the source file.
pub fn standard_cli_check(
    show_encoders: bool,
    encoder: &String,
    source_file: &String,
    source_exists: bool,
) -> (r: CliCheck)
    ensures
        r == standard_check(show_encoders, encoder@, source_file@, source_exists),
{
    if show_encoders {
        return CliCheck::ListEncoders;
    }
    // The default stands for no encoder at all.
    if same_text(encoder.as_str(), "encoder") {
        return CliCheck::NoEncoder;
    }
    if !is_encoder_supported(encoder) {
        return CliCheck::UnsupportedEncoder;
    }
    if !source_file.as_str().is_empty() && !source_exists {
        return CliCheck::MissingSourceFile;
    }
    CliCheck::Passed
}

/// Where the project lives.
pub fn get_repo_url() -> (r: String)
    ensures
        r@ == "https://github.com/Proryanator/encoder-benchmark"@,
{
    String::from_str("https://github.com/Proryanator/encoder-benchmark")
}

/// What the small font draws for a title; nothing where the font cannot
/// be had or cannot draw the title.
pub uninterp spec fn title_art(title: Seq<char>) -> Option<Seq<char>>;

/// Loads the small font with `FIGlet::small` and draws the title with
/// `FIGlet::convert`. The contract names what is drawn.
#[verifier::external_body]
fn log_tool_title_figlet(title: &str) -> (r: Option<String>)
    ensures
        match r {
            Some(art) => title_art(title@) == Some(art@),
            None => title_art(title@) is None,
        },
{
    match FIGlet::small() {
        Ok(font) => match font.convert(title) {
            Some(figure) => Some(figure.as_str()),
            None => None,
        },
        Err(_) => None,
    }
}

/// The head of the program's output for a title as it was drawn: the
/// drawing, then version and source.
pub open spec fn header_text(art: Seq<char>, version: Seq<char>) -> Seq<Seq<char>> {
    seq![
        art + "\n"@,
        "Version: "@ + version,
        "Source code: "@ + "https://github.com/Proryanator/encoder-benchmark"@ + "\n"@,
    ]
}

/// The head of the program's output from the drawing of the title.
pub fn header_lines(art: String, version: &str) -> (r: Vec<String>)
    ensures
        texts(r@) == header_text(art@, version@),
{
    let mut lines: Vec<String> = Vec::new();
    let mut drawing = art;
    drawing.append("\n");
    let mut version_line = String::from_str("Version: ");
    version_line.append(version);
    let mut source_line = String::from_str("Source code: ");
    source_line.append(get_repo_url().as_str());
    source_line.append("\n");
    lines.push(drawing);
    lines.push(version_line);
    lines.push(source_line);
    assert(texts(lines@) =~= header_text(art@, version@));
    lines
}

/// The head of the program's output: the title drawn in the small font,
/// then version and source. Nothing where the title cannot be drawn.
pub fn log_cli_header(title: String, version: &str) -> (r: Option<Vec<String>>)
    ensures
        match r {
            Some(lines) => title_art(title@) is Some && texts(lines@) == header_text(
                title_art(title@).unwrap(),
                version@,
            ),
            None => title_art(title@) is None,
        },
{
    match log_tool_title_figlet(title.as_str()) {
        Some(art) => Some(header_lines(art, version)),
        None => None,
    }
}

/// The line that sets the summary of a run off.
pub const SUMMARY_RULE: &'static str =
    "====================================================================================";

/// The lines on the bitrate of a run: the range of a search over several
/// bitrates, else the one bitrate.
pub open spec fn bitrate_lines(
    cli: &Cli,
    bitrate_permutations: usize,
    effective_bitrate: u32,
) -> Seq<Seq<char>> {
    if bitrate_permutations > 1 {
        seq![
            "Min bitrate:\t"@ + decimal(cli.bitrate as nat) + "Mb/s"@,
            "Max bitrate:\t"@ + decimal(cli.max_bitrate_permutation.unwrap() as nat) + "Mb/s"@,
        ]
    } else {
        seq!["Bitrate:\t"@ + decimal(effective_bitrate as nat) + "Mb/s"@]
    }
}

/// The lines on the special options of a search; none for the standard
/// benchmark or where no such option is set.
pub open spec fn option_summary(cli: &Cli, is_standard: bool) -> Seq<Seq<char>> {
    if (cli.check_quality || cli.detect_overload || cli.allow_duplicate_scores) && !is_standard {
        seq!["\nOptions:"@] + (if cli.detect_overload {
            seq!["  -encoder will stop if overload is detected"@]
        } else {
            Seq::<Seq<char>>::empty()
        }) + (if cli.check_quality {
            seq!["  -calculating vmaf score"@]
        } else {
            Seq::<Seq<char>>::empty()
        }) + (if cli.allow_duplicate_scores {
            seq!["  -allowing duplicate vmaf scores"@]
        } else {
            Seq::<Seq<char>>::empty()
        })
    } else {
        Seq::<Seq<char>>::empty()
    }
}

/// The summary that stands above a run: how many permutations a search
/// has, what is encoded, at which bitrates, with which options, and an
/// empty line.
pub open spec fn summary_lines(
    cli: &Cli,
    metadata: &MetaData,
    permutation_count: usize,
    bitrate_permutations: usize,
    is_standard: bool,
    effective_bitrate: u32,
) -> Seq<Seq<char>> {
    seq![SUMMARY_RULE@] + (if is_standard {
        Seq::<Seq<char>>::empty()
    } else {
        seq!["Permutations:\t"@ + decimal(permutation_count as nat)]
    }) + seq!["Resolution:\t"@ + metadata.res_text(), "Encoder:\t"@ + cli.encoder@] + bitrate_lines(
        cli,
        bitrate_permutations,
        effective_bitrate,
    ) + seq!["FPS:\t\t"@ + decimal(metadata.fps as nat)] + option_summary(cli, is_standard)
        + seq![Seq::<char>::empty()]
}

fn push_summary(lines: &mut Vec<String>, wanted: bool, line: String)
    ensures
        texts(final(lines)@) == texts(old(lines)@) + (if wanted {
            seq![line@]
        } else {
            Seq::<Seq<char>>::empty()
        }),
{
    let ghost before = lines@;
    if wanted {
        lines.push(line);
        assert(texts(lines@) =~= texts(before).push(line@));
    }
    assert(texts(lines@) =~= texts(before) + (if wanted {
        seq![line@]
    } else {
        Seq::<Seq<char>>::empty()
    }));
}

fn numbered(label: &str, n: u64, unit: &str) -> (r: String)
    ensures
        r@ == label@ + decimal(n as nat) + unit@,
{
    let mut line = String::from_str(label);
    push_decimal(&mut line, n);
    line.append(unit);
    assert(line@ =~= label@ + decimal(n as nat) + unit@);
    line
}

/// The summary that stands above a run.
pub fn log_total_permutations(
    cli: &Cli,
    metadata: &MetaData,
    permutation_count: usize,
    bitrate_permutations: usize,
    is_standard: bool,
    effective_bitrate: u32,
) -> (r: Vec<String>)
    requires
        bitrate_permutations > 1 ==> cli.max_bitrate_permutation is Some,
    ensures
        texts(r@) == summary_lines(
            cli,
            metadata,
            permutation_count,
            bitrate_permutations,
            is_standard,
            effective_bitrate,
        ),
{
    let mut lines: Vec<String> = Vec::new();
    assert(texts(lines@) =~= Seq::<Seq<char>>::empty());
    push_summary(&mut lines, true, String::from_str(SUMMARY_RULE));
    push_summary(&mut lines, !is_standard, numbered("Permutations:\t", permutation_count as u64, ""));
    let mut resolution = String::from_str("Resolution:\t");
    resolution.append(metadata.get_res().as_str());
    push_summary(&mut lines, true, resolution);
    let mut encoder = String::from_str("Encoder:\t");
    encoder.append(cli.encoder.as_str());
    push_summary(&mut lines, true, encoder);
    let ghost head = texts(lines@);
    proof {
        reveal_strlit("");
        assert(head =~= seq![SUMMARY_RULE@] + (if is_standard {
            Seq::<Seq<char>>::empty()
        } else {
            seq!["Permutations:\t"@ + decimal(permutation_count as nat)]
        }) + seq!["Resolution:\t"@ + metadata.res_text(), "Encoder:\t"@ + cli.encoder@]);
    }
    match cli.max_bitrate_permutation {
        Some(max_bitrate) => {
            if bitrate_permutations > 1 {
                push_summary(&mut lines, true, numbered("Min bitrate:\t", cli.bitrate as u64, "Mb/s"));
                push_summary(&mut lines, true, numbered("Max bitrate:\t", max_bitrate as u64, "Mb/s"));
            } else {
                push_summary(
                    &mut lines,
                    true,
                    numbered("Bitrate:\t", effective_bitrate as u64, "Mb/s"),
                );
            }
        },
        None => {
            push_summary(&mut lines, true, numbered("Bitrate:\t", effective_bitrate as u64, "Mb/s"));
        },
    }
    push_summary(&mut lines, true, numbered("FPS:\t\t", metadata.fps as u64, ""));
    let ghost body = texts(lines@);
    assert(body =~= head + bitrate_lines(cli, bitrate_permutations, effective_bitrate) + seq![
        "FPS:\t\t"@ + decimal(metadata.fps as nat),
    ]);
    if cli.has_special_options() && !is_standard {
        push_summary(&mut lines, true, String::from_str("\nOptions:"));
        push_summary(
            &mut lines,
            cli.detect_overload,
            String::from_str("  -encoder will stop if overload is detected"),
        );
        push_summary(&mut lines, cli.check_quality, String::from_str("  -calculating vmaf score"));
        push_summary(
            &mut lines,
            cli.allow_duplicate_scores,
            String::from_str("  -allowing duplicate vmaf scores"),
        );
    }
    assert(texts(lines@) =~= body + option_summary(cli, is_standard));
    push_summary(&mut lines, true, String::new());
    assert(texts(lines@) =~= summary_lines(
        cli,
        metadata,
        permutation_count,
        bitrate_permutations,
        is_standard,
        effective_bitrate,
    ));
    lines
}

impl Cli {
    /// Checks the options and fills in the largest bitrate where none was
    /// given: the search then stays at the one bitrate.
    pub fn validate(&mut self, source_exists: bool) -> (r: CliCheck)
        ensures
            r == standard_check(
                old(self).list_supported_encoders,
                old(self).encoder@,
                old(self).source_file@,
                source_exists,
            ),
            final(self).max_bitrate_permutation == (if r == CliCheck::Passed && old(self).max_bitrate_permutation is None {
                Some(old(self).bitrate)
            } else {
                old(self).max_bitrate_permutation
            }),
            final(self).encoder == old(self).encoder,
            final(self).bitrate == old(self).bitrate,
            final(self).check_quality == old(self).check_quality,
            final(self).detect_overload == old(self).detect_overload,
            final(self).source_file == old(self).source_file,
            final(self).test_run == old(self).test_run,
            final(self).allow_duplicate_scores == old(self).allow_duplicate_scores,
            final(self).verbose == old(self).verbose,
            final(self).list_supported_encoders == old(self).list_supported_encoders,
    {
        let check = standard_cli_check(
            self.list_supported_encoders,
            &self.encoder,
            &self.source_file,
            source_exists,
        );
        match check {
            CliCheck::Passed => {
                if self.max_bitrate_permutation.is_none() {
                    self.max_bitrate_permutation = Some(self.bitrate);
                }
            },
            _ => {},
        }
        check
    }
}

} // verus!
