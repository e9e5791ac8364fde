//! Setting up the standard benchmark: asking for the options, choosing the
//! settings and bitrate of each input, and laying out the trials.

use crate::cli::benchmark_cli::BenchmarkCli;
use crate::cli::supported::{
    get_supported_encoders, get_supported_inputs, supported_encoders, supported_inputs,
};
use crate::codecs::amf::Amf;
use crate::codecs::apple_silicon::Apple;
use crate::codecs::av1_qsv::AV1QSV;
use crate::codecs::nvenc::Nvenc;
use crate::codecs::permute::texts;
use crate::codecs::qsv::QSV;
use crate::codecs::resolutions::{resolution_table, scaled_bitrates};
use crate::codecs::vendor::{get_vendor_for_codec, vendor_of, Vendor};
use crate::ffmpeg::metadata::MetaData;
use crate::permutation::Permutation;
use crate::text::{
    chars_of, contains, decimal, has_substring, parse_chars, parse_unsigned, push_decimal,
    same_text,
};
use vstd::prelude::*;
use vstd::string::StringExecFns;

verus! {

/// Whether a character is numeric as Unicode has it: a digit, a letter
/// number or another number.
pub uninterp spec fn numeric_char(c: char) -> bool;

/// Calls `char::is_numeric`. The contract names the answer.
#[verifier::external_body]
fn char_is_numeric(c: char) -> (r: bool)
    ensures
        r == numeric_char(c),
{
    c.is_numeric()
}

/// Every character of the text is numeric.
pub open spec fn all_numeric(s: Seq<char>) -> bool {
    forall|i: int| 0 <= i < s.len() ==> numeric_char(#[trigger] s[i])
}

fn numeric_chars(chars: &Vec<char>) -> (r: bool)
    ensures
        r == all_numeric(chars@),
{
    let n = chars.len();
    let mut i: usize = 0;
    while i < n
        invariant
            i <= n,
            n == chars@.len(),
            forall|j: int| 0 <= j < i ==> numeric_char(#[trigger] chars@[j]),
        decreases n - i,
    {
        if !char_is_numeric(chars[i]) {
            return false;
        }
        i += 1;
    }
    true
}

/// Whether the input holds numeric characters only; the empty input does.
pub fn is_numeric(input: &String) -> (r: bool)
    ensures
        r == all_numeric(input@),
{
    let chars = chars_of(input.as_str());
    numeric_chars(&chars)
}

/// The choice that an input makes among `count` options, counted from 0:
/// the input must be numeric, a decimal number, and below `count`.
pub open spec fn choice_of(input: Seq<char>, count: nat) -> Option<nat> {
    if !all_numeric(input) {
        None
    } else {
        match parse_unsigned(input, u64::MAX as nat) {
            Ok(v) => if v < count {
                Some(v)
            } else {
                None
            },
            Err(_) => None,
        }
    }
}

/// Reads a choice among `count` options.
pub fn parse_choice(input: &str, count: usize) -> (r: Option<usize>)
    ensures
        match choice_of(input@, count as nat) {
            Some(v) => r == Some(v as usize),
            None => r is None,
        },
{
    let chars = chars_of(input);
    if !numeric_chars(&chars) {
        return None;
    }
    match parse_chars(&chars, u64::MAX) {
        Ok(v) => if v < count as u64 {
            Some(v as usize)
        } else {
            None
        },
        Err(_) => None,
    }
}

/// The options one per line, each behind its number.
pub open spec fn option_lines(options: Seq<&'static str>) -> Seq<Seq<char>> {
    Seq::new(options.len(), |i: int| "["@ + decimal(i as nat) + "] - "@ + options[i]@)
}

/// The options as they are shown for a choice, one line each.
pub fn print_options(input_vec: &Vec<&'static str>) -> (r: Vec<String>)
    ensures
        texts(r@) == option_lines(input_vec@),
{
    let mut lines: Vec<String> = Vec::new();
    let n = input_vec.len();
    let mut i: usize = 0;
    assert(texts(lines@) =~= option_lines(input_vec@).take(0));
    while i < n
        invariant
            i <= n,
            n == input_vec@.len(),
            texts(lines@) == option_lines(input_vec@).take(i as int),
        decreases n - i,
    {
        let mut line = String::from_str("[");
        push_decimal(&mut line, i as u64);
        line.append("] - ");
        line.append(input_vec[i]);
        assert(line@ =~= option_lines(input_vec@)[i as int]);
        let ghost before = lines@;
        lines.push(line);
        assert(texts(lines@) =~= texts(before).push(line@));
        assert(option_lines(input_vec@).take(i + 1) =~= option_lines(input_vec@).take(
            i as int,
        ).push(option_lines(input_vec@)[i as int]));
        i += 1;
    }
    assert(option_lines(input_vec@).take(n as int) =~= option_lines(input_vec@));
    lines
}

/// The questions that the user is asked, in their order.
#[derive(Clone, Copy, Debug, PartialEq, Eq, Structural)]
pub enum Prompt {
    ChooseGpu,
    ChooseEncoder,
    AskDecode,
    AskFullBenchmark,
    AskCurrentDirectory,
    AskDirectory,
    ChooseFile,
    AskVerbose,
    Done,
}

/// How far the asking has come.
#[derive(Clone, Copy, Debug, PartialEq, Eq, Structural)]
pub struct Dialogue {
    pub prompt: Prompt,
    /// Whether all standard inputs are to run.
    pub full_bench: bool,
    /// Whether the inputs lie in the current directory.
    pub in_current_dir: bool,
}

/// Whether an input says yes or no.
pub open spec fn is_yes_or_no(input: Seq<char>) -> bool {
    input == "y"@ || input == "n"@
}

impl Dialogue {
    /// The question behind the directory: a file to choose unless all
    /// inputs run.
    pub open spec fn after_directory(full_bench: bool) -> Prompt {
        if full_bench {
            Prompt::AskVerbose
        } else {
            Prompt::ChooseFile
        }
    }

    /// Whether an input answers the question that is open. The question
    /// after the current directory takes every input, and only `y` for a
    /// yes.
    pub open spec fn accepts(
        &self,
        input: Seq<char>,
        gpu_count: nat,
        directory_exists: bool,
    ) -> bool {
        match self.prompt {
            Prompt::ChooseGpu => choice_of(input, gpu_count) is Some && choice_of(input, gpu_count).unwrap() <= u8::MAX,
            Prompt::ChooseEncoder => choice_of(input, supported_encoders().len()) is Some,
            Prompt::AskDecode => is_yes_or_no(input),
            Prompt::AskFullBenchmark => is_yes_or_no(input),
            Prompt::AskCurrentDirectory => true,
            Prompt::AskDirectory => directory_exists,
            Prompt::ChooseFile => choice_of(input, supported_inputs().len()) is Some,
            Prompt::AskVerbose => is_yes_or_no(input),
            Prompt::Done => false,
        }
    }

    /// The asking after an input: an input that does not answer the open
    /// question leaves it open.
    pub open spec fn next(&self, input: Seq<char>, gpu_count: nat, directory_exists: bool) -> Dialogue {
        if !self.accepts(input, gpu_count, directory_exists) {
            *self
        } else {
            match self.prompt {
                Prompt::ChooseGpu => Dialogue { prompt: Prompt::ChooseEncoder, ..*self },
                Prompt::ChooseEncoder => Dialogue { prompt: Prompt::AskDecode, ..*self },
                Prompt::AskDecode => Dialogue { prompt: Prompt::AskFullBenchmark, ..*self },
                Prompt::AskFullBenchmark => Dialogue {
                    prompt: Prompt::AskCurrentDirectory,
                    full_bench: input == "y"@,
                    ..*self
                },
                Prompt::AskCurrentDirectory => Dialogue {
                    prompt: if input == "y"@ {
                        Self::after_directory(self.full_bench)
                    } else {
                        Prompt::AskDirectory
                    },
                    in_current_dir: input == "y"@,
                    ..*self
                },
                Prompt::AskDirectory => Dialogue {
                    prompt: Self::after_directory(self.full_bench),
                    ..*self
                },
                Prompt::ChooseFile => Dialogue { prompt: Prompt::AskVerbose, ..*self },
                Prompt::AskVerbose => Dialogue { prompt: Prompt::Done, ..*self },
                Prompt::Done => *self,
            }
        }
    }

    /// The first question: which GPU, where there is more than one.
    pub fn start(gpu_count: usize) -> (r: Self)
        ensures
            r == (Dialogue {
                prompt: if gpu_count > 1 {
                    Prompt::ChooseGpu
                } else {
                    Prompt::ChooseEncoder
                },
                full_bench: false,
                in_current_dir: false,
            }),
    {
        Dialogue {
            prompt: if gpu_count > 1 {
                Prompt::ChooseGpu
            } else {
                Prompt::ChooseEncoder
            },
            full_bench: false,
            in_current_dir: false,
        }
    }

    /// Takes the user's input for the open question into the options and
    /// moves on to the next question; returns whether the input was an
    /// answer. `directory_exists` says whether the input names a directory
    /// that is there.
    pub fn read_user_input(
        &mut self,
        cli: &mut BenchmarkCli,
        input: &str,
        gpu_count: usize,
        directory_exists: bool,
    ) -> (r: bool)
        ensures
            r == old(self).accepts(input@, gpu_count as nat, directory_exists),
            *final(self) == old(self).next(input@, gpu_count as nat, directory_exists),
            final(cli).list_supported_encoders == old(cli).list_supported_encoders,
            final(cli).was_ui_opened == old(cli).was_ui_opened,
            final(cli).gpu == (if r && old(self).prompt == Prompt::ChooseGpu {
                choice_of(input@, gpu_count as nat).unwrap() as u8
            } else {
                old(cli).gpu
            }),
            final(cli).encoder@ == (if r && old(self).prompt == Prompt::ChooseEncoder {
                supported_encoders()[choice_of(input@, 7).unwrap() as int]@
            } else {
                old(cli).encoder@
            }),
            final(cli).decode == (old(cli).decode || (r && old(self).prompt == Prompt::AskDecode
                && input@ == "y"@)),
            final(cli).files_directory@ == (if r && old(self).prompt == Prompt::AskDirectory {
                input@
            } else {
                old(cli).files_directory@
            }),
            final(cli).source_file@ == (if r && old(self).prompt == Prompt::ChooseFile {
                supported_inputs()[choice_of(input@, 8).unwrap() as int]@
            } else {
                old(cli).source_file@
            }),
            final(cli).verbose == (old(cli).verbose || (r && old(self).prompt
                == Prompt::AskVerbose && input@ == "y"@)),
    {
        let yes = same_text(input, "y");
        let no = same_text(input, "n");
        match self.prompt {
            Prompt::ChooseGpu => {
                match parse_choice(input, gpu_count) {
                    Some(value) => {
                        if value > 255 {
                            return false;
                        }
                        cli.gpu = value as u8;
                        self.prompt = Prompt::ChooseEncoder;
                        true
                    },
                    None => false,
                }
            },
            Prompt::ChooseEncoder => {
                match parse_choice(input, 7) {
                    Some(value) => {
                        let encoders = get_supported_encoders();
                        cli.encoder = String::from_str(encoders[value]);
                        self.prompt = Prompt::AskDecode;
                        true
                    },
                    None => false,
                }
            },
            Prompt::AskDecode => {
                if !yes && !no {
                    return false;
                }
                if yes {
                    cli.decode = true;
                }
                self.prompt = Prompt::AskFullBenchmark;
                true
            },
            Prompt::AskFullBenchmark => {
                if !yes && !no {
                    return false;
                }
                self.full_bench = yes;
                self.prompt = Prompt::AskCurrentDirectory;
                true
            },
            Prompt::AskCurrentDirectory => {
                // This question is asked once, whatever the answer.
                self.in_current_dir = yes;
                self.prompt = if yes {
                    if self.full_bench {
                        Prompt::AskVerbose
                    } else {
                        Prompt::ChooseFile
                    }
                } else {
                    Prompt::AskDirectory
                };
                true
            },
            Prompt::AskDirectory => {
                if !directory_exists {
                    return false;
                }
                cli.files_directory = String::from_str(input);
                self.prompt = if self.full_bench {
                    Prompt::AskVerbose
                } else {
                    Prompt::ChooseFile
                };
                true
            },
            Prompt::ChooseFile => {
                match parse_choice(input, 8) {
                    Some(value) => {
                        let inputs = get_supported_inputs();
                        cli.source_file = String::from_str(inputs[value]);
                        self.prompt = Prompt::AskVerbose;
                        true
                    },
                    None => false,
                }
            },
            Prompt::AskVerbose => {
                if !yes && !no {
                    return false;
                }
                if yes {
                    cli.verbose = true;
                }
                self.prompt = Prompt::Done;
                true
            },
            Prompt::Done => false,
        }
    }
}

/// The settings of the standard benchmark for an encoder on a GPU; none for
/// an encoder of no known vendor.
pub open spec fn benchmark_settings(encoder: Seq<char>, gpu: u8) -> Seq<char> {
    match vendor_of(encoder) {
        Vendor::Nvidia => "-preset p1 -tune ll -profile:v "@ + (if encoder == "hevc_nvenc"@ {
            "main"@
        } else {
            "high"@
        }) + " -rc cbr -cbr true -gpu "@ + decimal(gpu as nat),
        Vendor::AMD => "-usage ultralowlatency -quality speed -profile:v main -rc cbr -cbr true -gpu "@
            + decimal(gpu as nat),
        Vendor::IntelQSV => if has_substring(encoder, "av1"@) {
            "-preset veryfast -profile:v main"@
        } else {
            "-preset faster -profile main"@
        },
        Vendor::Apple => if has_substring(encoder, "h264"@) {
            "-profile:v baseline -coder vlc -constant_bit_rate true "@
        } else if has_substring(encoder, "hevc"@) {
            "-profile:v main -constant_bit_rate true "@
        } else {
            "-profile:v auto "@
        },
        Vendor::Unknown => Seq::<char>::empty(),
    }
}

/// The settings that the standard benchmark runs an encoder with.
pub fn get_benchmark_settings_for(cli: &BenchmarkCli) -> (r: String)
    ensures
        r@ == benchmark_settings(cli.encoder@, cli.gpu),
{
    let vendor = get_vendor_for_codec(&cli.encoder);
    let name = cli.encoder.as_str();
    match vendor {
        Vendor::Nvidia => {
            let nvenc = Nvenc::new(same_text(name, "hevc_nvenc"), cli.gpu);
            let r = nvenc.get_benchmark_settings();
            assert(r@ =~= benchmark_settings(cli.encoder@, cli.gpu));
            r
        },
        Vendor::AMD => {
            let amf = Amf::new(same_text(name, "hevc_amf"), cli.gpu);
            amf.get_benchmark_settings()
        },
        Vendor::IntelQSV => {
            if contains(name, "av1") {
                let intel_av1 = AV1QSV::new();
                intel_av1.get_benchmark_settings()
            } else {
                let intel_qsv = QSV::new(same_text(name, "hevc_qsv"));
                intel_qsv.get_benchmark_settings()
            }
        },
        Vendor::Apple => {
            if contains(name, "h264") {
                let apple = Apple::new(true, false);
                apple.get_benchmark_settings()
            } else if contains(name, "hevc") {
                let apple = Apple::new(false, false);
                apple.get_benchmark_settings()
            } else {
                let apple = Apple::new(false, true);
                apple.get_benchmark_settings()
            }
        },
        Vendor::Unknown => String::new(),
    }
}

/// The bitrate table that the benchmark of an encoder goes by: that of
/// NVENC for NVENC, that of AMF for every other encoder.
pub open spec fn benchmark_table(encoder: Seq<char>, fps: u32) -> Map<Seq<char>, u32> {
    if has_substring(encoder, "nvenc"@) {
        resolution_table(scaled_bitrates(seq![10u32, 20u32, 25u32, 55u32], fps))
    } else {
        resolution_table(scaled_bitrates(seq![20u32, 35u32, 50u32, 85u32], fps))
    }
}

/// The bitrate, in Mb/s, at which a video is encoded in the benchmark; none
/// for a resolution that has no standard bitrate.
pub fn get_bitrate_for(metadata: &MetaData, string: String) -> (r: Option<u32>)
    ensures
        r == (if benchmark_table(string@, metadata.fps).contains_key(metadata.res_text()) {
            Some(benchmark_table(string@, metadata.fps)[metadata.res_text()])
        } else {
            None
        }),
{
    let table = if contains(string.as_str(), "nvenc") {
        Nvenc::get_resolution_to_bitrate_map(metadata.fps)
    } else {
        Amf::get_resolution_to_bitrate_map(metadata.fps)
    };
    let res = metadata.get_res();
    match table.get(res.as_str()) {
        Some(bitrate) => Some(*bitrate),
        None => None,
    }
}

/// Where a standard input lies: below the directory where one was named,
/// or else one directory up for a development build, or else here.
pub open spec fn mapped_file(is_dev: bool, directory: Seq<char>, name: Seq<char>) -> Seq<char> {
    if directory.len() != 0 {
        directory + "/"@ + name
    } else if is_dev {
        "../"@ + name
    } else {
        name
    }
}

/// Where a standard input lies.
pub fn map_file(is_dev: bool, source_files_directory: &String, s: &str) -> (r: String)
    ensures
        r@ == mapped_file(is_dev, source_files_directory@, s@),
{
    let mut file = String::new();
    if !source_files_directory.as_str().is_empty() {
        file.append(source_files_directory.as_str());
        file.append("/");
        file.append(s);
    } else if is_dev {
        file.append("../");
        file.append(s);
    } else {
        file.append(s);
    }
    assert(file@ =~= mapped_file(is_dev, source_files_directory@, s@));
    file
}

/// The inputs of a benchmark: the source file that was named, or else all
/// the standard inputs, each where it lies.
pub open spec fn input_files(source_file: Seq<char>, directory: Seq<char>, is_dev: bool) -> Seq<
    Seq<char>,
> {
    if source_file.len() == 0 {
        Seq::new(
            supported_inputs().len(),
            |i: int| mapped_file(is_dev, directory, supported_inputs()[i]@),
        )
    } else {
        seq![source_file]
    }
}

/// The inputs that a benchmark runs on.
pub fn get_input_files(source_file: String, source_files_directory: String, is_dev: bool) -> (r:
    Vec<String>)
    ensures
        texts(r@) == input_files(source_file@, source_files_directory@, is_dev),
{
    let mut files: Vec<String> = Vec::new();
    if source_file.as_str().is_empty() {
        let inputs = get_supported_inputs();
        let ghost expected = input_files(source_file@, source_files_directory@, is_dev);
        let mut i: usize = 0;
        assert(texts(files@) =~= expected.take(0));
        while i < 8
            invariant
                i <= 8,
                inputs@ == supported_inputs(),
                expected == input_files(source_file@, source_files_directory@, is_dev),
                source_file@.len() == 0,
                texts(files@) == expected.take(i as int),
            decreases 8 - i,
        {
            let file = map_file(is_dev, &source_files_directory, inputs[i]);
            let ghost before = files@;
            files.push(file);
            assert(texts(files@) =~= texts(before).push(file@));
            assert(expected.take(i + 1) =~= expected.take(i as int).push(expected[i as int]));
            i += 1;
        }
        assert(expected.take(8) =~= expected);
        return files;
    }
    let ghost name = source_file@;
    files.push(source_file);
    assert(texts(files@) =~= seq![name]);
    files
}

/// What the trial of the benchmark on one input is like.
pub open spec fn is_benchmark_trial(
    p: &Permutation,
    cli: &BenchmarkCli,
    input: Seq<char>,
    metadata: MetaData,
    bitrate: u32,
    decode_run: bool,
) -> bool {
    &&& p.video_file@ == input
    &&& p.encoder@ == cli.encoder@
    &&& p.encoder_settings@ == benchmark_settings(cli.encoder@, cli.gpu)
    &&& p.bitrate == bitrate
    &&& p.metadata == metadata
    &&& p.verbose == cli.verbose
    &&& p.is_decoding == cli.decode
    &&& p.decode_run == decode_run
    &&& !p.check_quality
    &&& !p.allow_duplicates
    &&& !p.detect_overload
    &&& !p.ten_bit
}

/// The trials of the benchmark on one input whose metadata is known: the
/// encode, and behind it the decode where decoding was asked for. None for
/// a resolution that has no standard bitrate.
pub fn benchmark(cli: &BenchmarkCli, input: String, metadata: MetaData) -> (r: Option<
    Vec<Permutation>,
>)
    ensures
        match r {
            Some(trials) => benchmark_table(cli.encoder@, metadata.fps).contains_key(
                metadata.res_text(),
            ) && trials@.len() == (if cli.decode {
                2int
            } else {
                1int
            }) && is_benchmark_trial(
                &trials@[0],
                cli,
                input@,
                metadata,
                benchmark_table(cli.encoder@, metadata.fps)[metadata.res_text()],
                false,
            ) && (cli.decode ==> is_benchmark_trial(
                &trials@[1],
                cli,
                input@,
                metadata,
                benchmark_table(cli.encoder@, metadata.fps)[metadata.res_text()],
                true,
            )),
            None => !benchmark_table(cli.encoder@, metadata.fps).contains_key(metadata.res_text()),
        },
{
    let mut permutation = Permutation::new(input, cli.encoder.clone());
    let settings = get_benchmark_settings_for(cli);
    let known = permutation.get_metadata(metadata);
    let bitrate = match get_bitrate_for(&known, cli.encoder.clone()) {
        Some(bitrate) => bitrate,
        None => {
            return None;
        },
    };
    permutation.bitrate = bitrate;
    permutation.encoder_settings = settings;
    permutation.verbose = cli.verbose;
    // An encode that is decoded afterwards keeps its output.
    if cli.decode {
        permutation.is_decoding = true;
    }
    let mut trials: Vec<Permutation> = Vec::new();
    if cli.decode {
        let mut decode_permutation = permutation.clone();
        decode_permutation.decode_run = true;
        trials.push(permutation);
        trials.push(decode_permutation);
    } else {
        trials.push(permutation);
    }
    Some(trials)
}

} // verus!
