//! The argument list of one encoder process.

use crate::codecs::permute::texts;
use crate::text::{
    chars_of, decimal, padded, push_char, push_decimal, push_padded, split, split_fields,
    string_of,
};
use vstd::prelude::*;
use vstd::string::StringExecFns;

verus! {

/// Where the scoring process listens for the encoded stream.
pub const TCP_LISTEN: &'static str = "tcp://localhost:2000?listen";

/// The sink of an encode whose output nobody reads.
pub const NO_OUTPUT: &'static str = "-f null -";

/// What the encoder process is started with. A reporting period is held in
/// milliseconds.
pub struct FfmpegArgs {
    pub fps_limit: u32,
    pub report: bool,
    pub send_progress: bool,
    pub first_input: String,
    pub second_input: String,
    pub bitrate: u32,
    pub encoder: String,
    pub encoder_args: String,
    pub output_args: String,
    pub is_vmaf: bool,
    pub stats_period_ms: u32,
}

/// The options of a run, as the argument list is built from them.
pub struct Cli {
    pub encoder: String,
    pub bitrate: u32,
    pub check_quality: bool,
    pub detect_overload: bool,
    pub source_file: String,
    pub test_run: bool,
    pub max_bitrate_permutation: Option<u32>,
    pub allow_duplicate_scores: bool,
    pub verbose: bool,
    pub list_supported_encoders: bool,
}

impl Cli {
    /// Whether any option is set that changes what a trial does.
    pub fn has_special_options(&self) -> (r: bool)
        ensures
            r == (self.check_quality || self.detect_overload || self.allow_duplicate_scores),
    {
        self.check_quality || self.detect_overload || self.allow_duplicate_scores
    }
}

/// A period of `ms` milliseconds in seconds: the whole seconds, then, where
/// there is a fraction, a point and its digits without trailing zeros.
pub open spec fn period_text(ms: u32) -> Seq<char> {
    let whole = (ms / 1000) as nat;
    let frac = (ms % 1000) as nat;
    if frac == 0 {
        decimal(whole)
    } else if frac % 100 == 0 {
        decimal(whole) + "."@ + padded(frac / 100, 1)
    } else if frac % 10 == 0 {
        decimal(whole) + "."@ + padded(frac / 10, 2)
    } else {
        decimal(whole) + "."@ + padded(frac, 3)
    }
}

fn push_period(out: &mut String, ms: u32)
    ensures
        final(out)@ == old(out)@ + period_text(ms),
{
    let whole = ms / 1000;
    let frac = ms % 1000;
    push_decimal(out, whole as u64);
    if frac != 0 {
        out.append(".");
        if frac % 100 == 0 {
            push_padded(out, (frac / 100) as u64, 1);
        } else if frac % 10 == 0 {
            push_padded(out, (frac / 10) as u64, 2);
        } else {
            push_padded(out, frac as u64, 3);
        }
    }
    assert(final(out)@ =~= old(out)@ + period_text(ms));
}

/// Appends what only an encode has: bitrate in Mb/s, encoder and its
/// settings.
pub fn append_encode_only_args(
    arg_str: &mut String,
    bitrate: u32,
    encoder: &String,
    encoder_args: &String,
)
    ensures
        final(arg_str)@ == old(arg_str)@ + encode_only_text(bitrate, encoder@, encoder_args@),
{
    arg_str.append(" -b:v ");
    push_decimal(arg_str, bitrate as u64);
    push_char(arg_str, 'M');
    arg_str.append(" -c:v ");
    arg_str.append(encoder.as_str());
    push_char(arg_str, ' ');
    arg_str.append(encoder_args.as_str());
    assert(final(arg_str)@ =~= old(arg_str)@ + encode_only_text(bitrate, encoder@, encoder_args@));
}

/// What only an encode has: bitrate in Mb/s, encoder and its settings.
pub open spec fn encode_only_text(bitrate: u32, encoder: Seq<char>, encoder_args: Seq<char>) -> Seq<
    char,
> {
    " -b:v "@ + decimal(bitrate as nat) + seq!['M'] + " -c:v "@ + encoder + seq![' ']
        + encoder_args
}

/// The filter of a scoring run on `cpus` threads.
pub open spec fn vmaf_only_text(cpus: nat) -> Seq<char> {
    " -filter_complex libvmaf='n_threads="@ + decimal(cpus) + ":n_subsample=5'"@
}

/// Appends what only a scoring run has.
pub fn append_vmaf_only_args(arg_str: &mut String, cpus: usize)
    ensures
        final(arg_str)@ == old(arg_str)@ + vmaf_only_text(cpus as nat),
{
    arg_str.append(" -filter_complex libvmaf='n_threads=");
    push_decimal(arg_str, cpus as u64);
    arg_str.append(":n_subsample=5'");
    assert(final(arg_str)@ =~= old(arg_str)@ + vmaf_only_text(cpus as nat));
}

/// Calls `num_cpus::get`. The contract claims only what the crate promises
/// of every machine: the count is at least one.
#[verifier::external_body]
fn cpu_count() -> (n: usize)
    ensures
        n >= 1,
{
    num_cpus::get()
}

impl Default for FfmpegArgs {
    /// No inputs, no encoder, progress sent twice a second, output dropped.
    fn default() -> (r: Self)
        ensures
            r.fps_limit == 0,
            !r.report,
            r.send_progress,
            r.first_input@ == Seq::<char>::empty(),
            r.second_input@ == Seq::<char>::empty(),
            r.bitrate == 0,
            r.encoder@ == Seq::<char>::empty(),
            r.encoder_args@ == Seq::<char>::empty(),
            r.output_args@ == NO_OUTPUT@,
            !r.is_vmaf,
            r.stats_period_ms == 500,
    {
        FfmpegArgs {
            fps_limit: 0,
            report: false,
            send_progress: true,
            first_input: String::new(),
            second_input: String::new(),
            bitrate: 0,
            encoder: String::new(),
            encoder_args: String::new(),
            output_args: String::from_str(NO_OUTPUT),
            is_vmaf: false,
            // The shorter the period, the livelier the progress and the
            // coarser each throughput sample.
            stats_period_ms: 500,
        }
    }
}

impl Clone for FfmpegArgs {
    fn clone(&self) -> (r: Self)
        ensures
            r == *self,
    {
        FfmpegArgs {
            fps_limit: self.fps_limit,
            report: self.report,
            send_progress: self.send_progress,
            first_input: self.first_input.clone(),
            second_input: self.second_input.clone(),
            bitrate: self.bitrate,
            encoder: self.encoder.clone(),
            encoder_args: self.encoder_args.clone(),
            output_args: self.output_args.clone(),
            is_vmaf: self.is_vmaf,
            stats_period_ms: self.stats_period_ms,
        }
    }
}

impl FfmpegArgs {
    /// Field by field the same, texts taken by their characters.
    pub open spec fn same_as(&self, other: &Self) -> bool {
        &&& self.fps_limit == other.fps_limit
        &&& self.report == other.report
        &&& self.send_progress == other.send_progress
        &&& self.first_input@ == other.first_input@
        &&& self.second_input@ == other.second_input@
        &&& self.bitrate == other.bitrate
        &&& self.encoder@ == other.encoder@
        &&& self.encoder_args@ == other.encoder_args@
        &&& self.output_args@ == other.output_args@
        &&& self.is_vmaf == other.is_vmaf
        &&& self.stats_period_ms == other.stats_period_ms
    }

    /// What stands before the inputs: progress reporting, report switch and
    /// frame rate limit, each where set.
    pub open spec fn head_text(&self) -> Seq<char> {
        (if self.send_progress {
            "-progress tcp://localhost:1234 -stats_period "@ + period_text(self.stats_period_ms)
                + " "@
        } else {
            Seq::<char>::empty()
        }) + (if self.report {
            "-report "@
        } else {
            Seq::<char>::empty()
        }) + (if self.fps_limit != 0 {
            "-r "@ + decimal(self.fps_limit as nat) + " "@
        } else {
            Seq::<char>::empty()
        })
    }

    /// The inputs: the first always, the second where there is one, under
    /// the frame rate limit where that is set.
    pub open spec fn inputs_text(&self) -> Seq<char> {
        "-i "@ + self.first_input@ + (if self.second_input@.len() != 0 {
            (if self.fps_limit != 0 {
                " -r "@ + decimal(self.fps_limit as nat)
            } else {
                Seq::<char>::empty()
            }) + " -i "@ + self.second_input@
        } else {
            Seq::<char>::empty()
        })
    }

    /// The argument text on a machine with `cpus` processors: what stands
    /// before the inputs, the inputs, then the encode's or the scoring run's
    /// own part, then the sink.
    pub open spec fn text(&self, cpus: nat) -> Seq<char> {
        self.head_text() + self.inputs_text() + (if self.is_vmaf {
            vmaf_only_text(cpus)
        } else {
            encode_only_text(self.bitrate, self.encoder@, self.encoder_args@)
        }) + seq![' '] + self.output_args@
    }

    fn push_head(&self, output: &mut String)
        ensures
            final(output)@ == old(output)@ + self.head_text(),
    {
        if self.send_progress {
            output.append("-progress tcp://localhost:1234 -stats_period ");
            push_period(output, self.stats_period_ms);
            output.append(" ");
        }
        let ghost first = output@;
        assert(first =~= old(output)@ + (if self.send_progress {
            "-progress tcp://localhost:1234 -stats_period "@ + period_text(self.stats_period_ms)
                + " "@
        } else {
            Seq::<char>::empty()
        }));
        if self.report {
            output.append("-report ");
        }
        let ghost second = output@;
        assert(second =~= first + (if self.report {
            "-report "@
        } else {
            Seq::<char>::empty()
        }));
        if self.fps_limit != 0 {
            output.append("-r ");
            push_decimal(output, self.fps_limit as u64);
            output.append(" ");
        }
        assert(output@ =~= second + (if self.fps_limit != 0 {
            "-r "@ + decimal(self.fps_limit as nat) + " "@
        } else {
            Seq::<char>::empty()
        }));
        assert(final(output)@ =~= old(output)@ + self.head_text());
    }

    fn push_inputs(&self, output: &mut String)
        ensures
            final(output)@ == old(output)@ + self.inputs_text(),
    {
        output.append("-i ");
        output.append(self.first_input.as_str());
        if !self.second_input.as_str().is_empty() {
            if self.fps_limit != 0 {
                output.append(" -r ");
                push_decimal(output, self.fps_limit as u64);
            }
            output.append(" -i ");
            output.append(self.second_input.as_str());
        }
        assert(final(output)@ =~= old(output)@ + self.inputs_text());
    }

    /// The arguments of an encode of `first_input` at `current_bitrate`
    /// Mb/s; everything else as in `default`.
    pub fn build_ffmpeg_args(
        first_input: String,
        encoder: String,
        encoder_args: &String,
        current_bitrate: u32,
    ) -> (r: FfmpegArgs)
        ensures
            r.first_input@ == first_input@,
            r.encoder@ == encoder@,
            r.encoder_args@ == encoder_args@,
            r.bitrate == current_bitrate,
            r.fps_limit == 0,
            !r.report,
            r.send_progress,
            r.second_input@ == Seq::<char>::empty(),
            r.output_args@ == NO_OUTPUT@,
            !r.is_vmaf,
            r.stats_period_ms == 500,
    {
        let mut args = FfmpegArgs::default();
        args.first_input = first_input;
        args.bitrate = current_bitrate;
        args.encoder = encoder;
        args.encoder_args = encoder_args.clone();
        args
    }

    /// The arguments of the run that scores this encode: it listens for the
    /// encoded stream as its first input and reads the source as its second,
    /// at the source's frame rate, reports, and sends no progress.
    pub fn map_to_vmaf(&self, fps: u32) -> (r: FfmpegArgs)
        ensures
            r.fps_limit == fps,
            r.second_input@ == self.first_input@,
            r.first_input@ == TCP_LISTEN@,
            r.output_args@ == NO_OUTPUT@,
            r.is_vmaf,
            !r.send_progress,
            r.report,
            r.bitrate == self.bitrate,
            r.encoder@ == self.encoder@,
            r.encoder_args@ == self.encoder_args@,
            r.stats_period_ms == self.stats_period_ms,
    {
        let mut vmaf_args = self.clone();
        // A source of a high frame rate scores wrongly without the limit.
        vmaf_args.fps_limit = fps;
        vmaf_args.second_input = self.first_input.clone();
        vmaf_args.first_input = String::from_str(TCP_LISTEN);
        vmaf_args.output_args = String::from_str(NO_OUTPUT);
        vmaf_args.is_vmaf = true;
        vmaf_args.send_progress = false;
        // The score is read from the report.
        vmaf_args.report = true;
        vmaf_args
    }

    /// The argument text for a machine with `cpus` processors.
    pub fn render(&self, cpus: usize) -> (r: String)
        ensures
            r@ == self.text(cpus as nat),
    {
        let mut output = String::new();
        self.push_head(&mut output);
        self.push_inputs(&mut output);
        if self.is_vmaf {
            append_vmaf_only_args(&mut output, cpus);
        } else {
            append_encode_only_args(&mut output, self.bitrate, &self.encoder, &self.encoder_args);
        }
        push_char(&mut output, ' ');
        output.append(self.output_args.as_str());
        assert(output@ =~= self.text(cpus as nat));
        output
    }

    /// The argument text on this machine. Only a scoring run depends on the
    /// machine: its filter takes as many threads as there are processors.
    pub fn to_string(&self) -> (r: String)
        ensures
            exists|cpus: nat| cpus >= 1 && r@ == self.text(cpus),
            !self.is_vmaf ==> r@ == self.text(1),
    {
        let cpus = cpu_count();
        let r = self.render(cpus);
        assert(cpus as nat >= 1 && r@ == self.text(cpus as nat));
        r
    }

    /// Turns the arguments into those of a run that is started again only to
    /// show why it failed: output dropped, no progress sent.
    pub fn set_no_output_for_error(&mut self)
        ensures
            final(self).output_args@ == NO_OUTPUT@,
            !final(self).send_progress,
            final(self).fps_limit == old(self).fps_limit,
            final(self).report == old(self).report,
            final(self).first_input@ == old(self).first_input@,
            final(self).second_input@ == old(self).second_input@,
            final(self).bitrate == old(self).bitrate,
            final(self).encoder@ == old(self).encoder@,
            final(self).encoder_args@ == old(self).encoder_args@,
            final(self).is_vmaf == old(self).is_vmaf,
            final(self).stats_period_ms == old(self).stats_period_ms,
    {
        self.output_args = String::from_str(NO_OUTPUT);
        self.send_progress = false;
    }

    /// The words of `rendered`, cut at every blank.
    pub fn words(rendered: &str) -> (r: Vec<String>)
        ensures
            texts(r@) == split_fields(rendered@, ' '),
    {
        let chars = chars_of(rendered);
        let fields = split(&chars, ' ');
        let mut out: Vec<String> = Vec::new();
        let n = fields.len();
        let mut i: usize = 0;
        while i < n
            invariant
                i <= n,
                n == fields@.len(),
                n == split_fields(rendered@, ' ').len(),
                forall|k: int|
                    0 <= k < n ==> (#[trigger] fields@[k])@ == split_fields(rendered@, ' ')[k],
                texts(out@) == split_fields(rendered@, ' ').take(i as int),
            decreases n - i,
        {
            let word = string_of(&fields[i]);
            let ghost before = out@;
            out.push(word);
            assert(texts(out@) =~= texts(before).push(word@));
            assert(split_fields(rendered@, ' ').take(i + 1) =~= split_fields(rendered@, ' ').take(
                i as int,
            ).push(split_fields(rendered@, ' ')[i as int]));
            i += 1;
        }
        assert(split_fields(rendered@, ' ').take(n as int) =~= split_fields(rendered@, ' '));
        out
    }

    /// The arguments one by one, as the process takes them: the text of
    /// `to_string` cut at every blank.
    pub fn to_vec(&self) -> (r: Vec<String>)
        ensures
            exists|cpus: nat| cpus >= 1 && texts(r@) == split_fields(self.text(cpus), ' '),
            !self.is_vmaf ==> texts(r@) == split_fields(self.text(1), ' '),
    {
        let rendered = self.to_string();
        let r = Self::words(rendered.as_str());
        proof {
            let cpus = choose|cpus: nat| cpus >= 1 && rendered@ == self.text(cpus);
            assert(cpus >= 1 && texts(r@) == split_fields(self.text(cpus), ' '));
        }
        r
    }
}

} // verus!
