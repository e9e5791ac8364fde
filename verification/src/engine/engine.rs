//! Running one trial: its arguments, what follows its end, its statistics,
//! and the estimate of the time that the search still takes.

use crate::engine::fps_stats::FpsStats;
use crate::engine::progressbar::TrialResult;
use crate::codecs::permute::texts;
use crate::engine::result::{dhms_text, format_dhms, PermutationResult};
use crate::ffmpeg::args::{FfmpegArgs, NO_OUTPUT};
use crate::ffmpeg::metadata::MetaData;
use crate::permutation::Permutation;
use vstd::arithmetic::div_mod::{lemma_fundamental_div_mod, lemma_hoist_over_denominator};
use crate::text::{decimal, push_decimal};
use vstd::prelude::*;
use vstd::string::StringExecFns;

verus! {

/// The fewest samples that the statistics can be taken from: with fewer,
/// the ninetieth percentile has no sample to stand on.
pub const MIN_SAMPLES: usize = 10;

/// What follows the end of an encode.
#[derive(Clone, Copy, Debug, PartialEq, Eq, Structural)]
pub enum TrialStep {
    /// The outcome stands; the trial is over.
    Accept,
    /// The encoder was overloaded: run the same encode once more.
    RetryEncode,
    /// The encoder failed: run it once more with its output shown, then
    /// give the whole run up.
    DiagnoseAndAbort,
    /// The run was cancelled: leave without a result.
    Cancelled,
}

/// What the runner does after an encode: the next step, and whether the
/// encoder process has to be killed first.
#[derive(Clone, Copy, Debug, PartialEq, Eq, Structural)]
pub struct TrialDecision {
    pub step: TrialStep,
    pub kill_child: bool,
}

/// The share of the permutations that are still run: `kept` of `seen`.
#[derive(Clone, Copy, Debug, PartialEq, Eq, Structural)]
pub struct IgnoreFactor {
    pub kept: usize,
    pub seen: usize,
}

/// The samples stand in ascending order.
pub open spec fn sorted(s: Seq<u16>) -> bool {
    forall|i: int, j: int| 0 <= i <= j < s.len() ==> s[i] <= s[j]
}

/// The sum of the samples.
pub open spec fn sum_of(s: Seq<u16>) -> nat
    decreases s.len(),
{
    if s.len() == 0 {
        0
    } else {
        sum_of(s.drop_last()) + s.last() as nat
    }
}

/// The place of the `percent`th percentile among `n` samples in ascending
/// order, by nearest rank: `percent` hundredths of `n`, rounded up.
pub open spec fn rank_index(percent: nat, n: nat) -> nat {
    (percent * n + 99) / 100
}

/// The statistics of samples in ascending order: their mean, rounded down,
/// and the samples at the ranks of the first and the ninetieth percentile.
pub open spec fn stats_of(samples: Seq<u16>) -> FpsStats {
    FpsStats {
        avg: (sum_of(samples) / samples.len()) as u16,
        one_perc_low: samples[rank_index(1, samples.len()) as int],
        ninety_perc: samples[rank_index(90, samples.len()) as int],
    }
}

/// The sum of samples is at most the largest sample times their number.
pub proof fn lemma_sum_bound(s: Seq<u16>)
    ensures
        sum_of(s) <= 0xffff * s.len(),
    decreases s.len(),
{
    if s.len() > 0 {
        lemma_sum_bound(s.drop_last());
    }
}

/// Calls `sort` of slices on the samples. The contract claims that the
/// samples afterwards are the samples before in ascending order.
#[verifier::external_body]
fn sort_samples(samples: &mut Vec<u16>)
    ensures
        sorted(final(samples)@),
        final(samples)@.to_multiset() == old(samples)@.to_multiset(),
{
    samples.sort();
}

fn sum_samples(samples: &Vec<u16>) -> (r: u128)
    ensures
        r == sum_of(samples@),
{
    let n = samples.len();
    let mut sum: u128 = 0;
    let mut i: usize = 0;
    assert(samples@.take(0) =~= Seq::<u16>::empty());
    while i < n
        invariant
            i <= n,
            n == samples@.len(),
            sum == sum_of(samples@.take(i as int)),
            sum <= 0xffff * i,
        decreases n - i,
    {
        proof {
            assert(samples@.take(i + 1).drop_last() =~= samples@.take(i as int));
        }
        sum = sum + samples[i] as u128;
        i += 1;
    }
    assert(samples@.take(n as int) =~= samples@);
    sum
}

/// Takes the statistics of a trial into its result. The samples are put in
/// ascending order on the way.
pub fn calculate_fps_statistics(
    permutation_result: &mut PermutationResult,
    trial_result: &mut TrialResult,
)
    requires
        old(trial_result).all_fps@.len() >= MIN_SAMPLES,
    ensures
        sorted(final(trial_result).all_fps@),
        final(trial_result).all_fps@.to_multiset() == old(trial_result).all_fps@.to_multiset(),
        final(trial_result).was_overloaded == old(trial_result).was_overloaded,
        final(trial_result).ffmpeg_error == old(trial_result).ffmpeg_error,
        final(permutation_result).fps_stats == stats_of(final(trial_result).all_fps@),
        final(permutation_result).encoder == old(permutation_result).encoder,
        final(permutation_result).was_overloaded == old(permutation_result).was_overloaded,
        final(permutation_result).bitrate == old(permutation_result).bitrate,
        final(permutation_result).metadata == old(permutation_result).metadata,
        final(permutation_result).encoder_settings == old(permutation_result).encoder_settings,
        final(permutation_result).encode_time == old(permutation_result).encode_time,
        final(permutation_result).vmaf_calculation_time == old(
            permutation_result,
        ).vmaf_calculation_time,
        final(permutation_result).vmaf_score == old(permutation_result).vmaf_score,
{
    sort_samples(&mut trial_result.all_fps);
    proof {
        old(trial_result).all_fps@.to_multiset_ensures();
        trial_result.all_fps@.to_multiset_ensures();
    }
    let n = trial_result.all_fps.len();
    assert(n >= 10);
    // The sum of many samples does not fit the width of one.
    let sum = sum_samples(&trial_result.all_fps);
    proof {
        lemma_sum_bound(trial_result.all_fps@);
        assert(sum / (n as u128) <= 0xffff) by (nonlinear_arith)
            requires
                sum <= 0xffff * n,
                n > 0,
        ;
    }
    let avg = (sum / n as u128) as u16;
    let low: u128 = (n as u128 + 99) / 100;
    let high: u128 = (90 * n as u128 + 99) / 100;
    assert(low == rank_index(1, n as nat));
    assert(high == rank_index(90, n as nat));
    assert(low < n && high < n);
    permutation_result.fps_stats = FpsStats {
        avg,
        one_perc_low: trial_result.all_fps[low as usize],
        ninety_perc: trial_result.all_fps[high as usize],
    };
}

impl IgnoreFactor {
    /// A share is taken of something, and is no more than all of it.
    pub open spec fn wf(&self) -> bool {
        0 < self.seen && self.kept <= self.seen
    }

    /// The share before anything was left out: all of it.
    pub fn whole() -> (r: Self)
        ensures
            r == (IgnoreFactor { kept: 1, seen: 1 }),
            r.wf(),
    {
        IgnoreFactor { kept: 1, seen: 1 }
    }
}

/// How many permutations are still to run when number `current_perm` of
/// `total_perms`, counted from 1, is about to start: that one and all
/// behind it.
pub open spec fn remaining_permutations(current_perm: nat, total_perms: nat) -> int {
    total_perms - (current_perm - 1)
}

/// The estimate of the time that is left, in seconds: the time that the
/// last trial took, for each permutation that remains, scaled by the share
/// of permutations that are still run.
pub open spec fn eta_seconds(
    elapsed_secs: u64,
    current_perm: nat,
    total_perms: nat,
    factor: IgnoreFactor,
) -> int {
    (elapsed_secs * remaining_permutations(current_perm, total_perms) * factor.kept) / (
    factor.seen as int)
}

/// For every permutation of a search there is at least that one still to
/// run, so no estimate is negative.
pub proof fn lemma_eta_is_never_negative(
    elapsed_secs: u64,
    current_perm: nat,
    total_perms: nat,
    factor: IgnoreFactor,
)
    requires
        1 <= current_perm <= total_perms,
        factor.wf(),
    ensures
        remaining_permutations(current_perm, total_perms) >= 1,
        remaining_permutations(current_perm, total_perms) <= total_perms,
        eta_seconds(elapsed_secs, current_perm, total_perms, factor) >= 0,
        eta_seconds(elapsed_secs, current_perm, total_perms, factor) <= elapsed_secs
            * remaining_permutations(current_perm, total_perms),
{
    let r = remaining_permutations(current_perm, total_perms);
    let a = elapsed_secs * r;
    assert(a >= 0) by (nonlinear_arith)
        requires
            a == elapsed_secs * r,
            r >= 1,
    ;
    assert(0 <= (a * factor.kept) / (factor.seen as int) <= a) by (nonlinear_arith)
        requires
            a >= 0,
            0 < factor.seen,
            0 <= factor.kept <= factor.seen,
    ;
}

/// The estimate of the time that is left, in seconds; the largest number
/// where the estimate does not fit.
pub fn calculate_eta(
    elapsed_secs: u64,
    current_perm: usize,
    total_perms: usize,
    ignored_factor: IgnoreFactor,
) -> (r: u64)
    requires
        1 <= current_perm <= total_perms,
        ignored_factor.wf(),
    ensures
        r == (if eta_seconds(elapsed_secs, current_perm as nat, total_perms as nat, ignored_factor)
            > u64::MAX {
            u64::MAX as int
        } else {
            eta_seconds(elapsed_secs, current_perm as nat, total_perms as nat, ignored_factor)
        }),
{
    let remaining: u128 = (total_perms - (current_perm - 1)) as u128;
    let kept = ignored_factor.kept as u128;
    let seen = ignored_factor.seen as u128;
    assert(elapsed_secs * remaining <= 0xffff_ffff_ffff_ffff * 0xffff_ffff_ffff_ffff)
        by (nonlinear_arith)
        requires
            elapsed_secs <= 0xffff_ffff_ffff_ffff,
            0 <= remaining <= 0xffff_ffff_ffff_ffff,
    ;
    let all: u128 = elapsed_secs as u128 * remaining;
    let q = all / seen;
    let rest = all % seen;
    proof {
        lemma_fundamental_div_mod(all as int, seen as int);
        assert(q * kept <= all) by (nonlinear_arith)
            requires
                all == seen * q + rest,
                0 <= rest,
                0 <= kept <= seen,
                0 <= q,
        ;
        assert(rest * kept <= 0xffff_ffff_ffff_ffff * 0xffff_ffff_ffff_ffff) by (nonlinear_arith)
            requires
                0 <= rest < seen,
                seen <= 0xffff_ffff_ffff_ffff,
                0 <= kept <= 0xffff_ffff_ffff_ffff,
        ;
        assert((rest * kept) / (seen as int) <= rest) by (nonlinear_arith)
            requires
                0 <= rest,
                0 < seen,
                0 <= kept <= seen,
        ;
        // all * kept == (q * kept) * seen + rest * kept
        assert(all * kept == rest * kept + (q * kept) * seen) by (nonlinear_arith)
            requires
                all == seen * q + rest,
        ;
        lemma_hoist_over_denominator(rest * kept, q * kept, seen as nat);
    }
    let eta: u128 = q * kept + (rest * kept) / seen;
    assert(eta == eta_seconds(
        elapsed_secs,
        current_perm as nat,
        total_perms as nat,
        ignored_factor,
    ));
    if eta > u64::MAX as u128 {
        u64::MAX
    } else {
        eta as u64
    }
}

/// The line of a header that tells how much time is left: unknown before
/// the first trial has been timed.
pub open spec fn etr_text(
    index: nat,
    total: nat,
    calc_time: Option<u64>,
    factor: IgnoreFactor,
) -> Seq<char> {
    match calc_time {
        Some(seconds) => {
            let eta = eta_seconds(seconds, index, total, factor);
            "[ETR: "@ + dhms_text(
                if eta > u64::MAX {
                    u64::MAX
                } else {
                    eta as u64
                },
            ) + "]"@
        },
        None => "[ETR: Unknown until first permutation is done]"@,
    }
}

/// The lines that stand above trial `index`, counted from 0: the time that
/// is left where it is asked for, the number of the trial, which half of a
/// decoding trial it is, and what is encoded and how.
pub open spec fn header_lines(
    index: nat,
    permutations: Seq<Permutation>,
    calc_time: Option<u64>,
    log_eta: bool,
    factor: IgnoreFactor,
) -> Seq<Seq<char>> {
    let p = permutations[index as int];
    (if log_eta {
        seq![etr_text(index, permutations.len(), calc_time, factor)]
    } else {
        Seq::<Seq<char>>::empty()
    }) + seq![
        "[Permutation:\t"@ + decimal(index + 1) + "/"@ + decimal(permutations.len()) + "]"@,
    ] + (if p.is_decoding {
        seq![
            if p.decode_run {
                "[Decode Benchmark]"@
            } else {
                "[Encode Benchmark]"@
            },
        ]
    } else {
        Seq::<Seq<char>>::empty()
    }) + seq![
        "[Resolution:\t"@ + decimal(p.metadata.width as nat) + "x"@ + decimal(
            p.metadata.height as nat,
        ) + "]"@,
        "[Encoder:\t"@ + p.encoder@ + "]"@,
        "[FPS:\t\t"@ + decimal(p.metadata.fps as nat) + "]"@,
        "[Bitrate:\t"@ + decimal(p.bitrate as nat) + "Mb/s]"@,
        "["@ + p.encoder_settings@ + "]"@,
    ]
}

fn push_header_line(lines: &mut Vec<String>, line: String)
    ensures
        texts(final(lines)@) == texts(old(lines)@).push(line@),
{
    let ghost before = lines@;
    lines.push(line);
    assert(texts(lines@) =~= texts(before).push(line@));
}

fn log_header(
    index: usize,
    permutations: &Vec<Permutation>,
    calc_time: Option<u64>,
    log_eta: bool,
    ignore_factor: IgnoreFactor,
) -> (r: Vec<String>)
    requires
        index < permutations@.len(),
        calc_time is Some ==> index >= 1,
        ignore_factor.wf(),
    ensures
        texts(r@) == header_lines(index as nat, permutations@, calc_time, log_eta, ignore_factor),
{
    let permutation = &permutations[index];
    let total = permutations.len();
    let mut lines: Vec<String> = Vec::new();
    assert(texts(lines@) =~= Seq::<Seq<char>>::empty());
    if log_eta {
        match calc_time {
            Some(seconds) => {
                let eta = calculate_eta(seconds, index, total, ignore_factor);
                let mut line = String::from_str("[ETR: ");
                line.append(format_dhms(eta).as_str());
                line.append("]");
                assert(line@ =~= etr_text(index as nat, total as nat, calc_time, ignore_factor));
                push_header_line(&mut lines, line);
            },
            None => {
                push_header_line(
                    &mut lines,
                    String::from_str("[ETR: Unknown until first permutation is done]"),
                );
            },
        }
    }
    let ghost first = texts(lines@);
    assert(first =~= (if log_eta {
        seq![etr_text(index as nat, total as nat, calc_time, ignore_factor)]
    } else {
        Seq::<Seq<char>>::empty()
    }));
    let mut number = String::from_str("[Permutation:\t");
    push_decimal(&mut number, index as u64 + 1);
    number.append("/");
    push_decimal(&mut number, total as u64);
    number.append("]");
    assert(number@ =~= "[Permutation:\t"@ + decimal((index + 1) as nat) + "/"@ + decimal(
        total as nat,
    ) + "]"@);
    push_header_line(&mut lines, number);
    if permutation.is_decoding {
        if permutation.decode_run {
            push_header_line(&mut lines, String::from_str("[Decode Benchmark]"));
        } else {
            push_header_line(&mut lines, String::from_str("[Encode Benchmark]"));
        }
    }
    let ghost second = texts(lines@);
    assert(second =~= first + seq![
        "[Permutation:\t"@ + decimal((index + 1) as nat) + "/"@ + decimal(total as nat) + "]"@,
    ] + (if permutation.is_decoding {
        seq![
            if permutation.decode_run {
                "[Decode Benchmark]"@
            } else {
                "[Encode Benchmark]"@
            },
        ]
    } else {
        Seq::<Seq<char>>::empty()
    }));
    let mut resolution = String::from_str("[Resolution:\t");
    push_decimal(&mut resolution, permutation.metadata.width as u64);
    resolution.append("x");
    push_decimal(&mut resolution, permutation.metadata.height as u64);
    resolution.append("]");
    assert(resolution@ =~= "[Resolution:\t"@ + decimal(permutation.metadata.width as nat) + "x"@
        + decimal(permutation.metadata.height as nat) + "]"@);
    push_header_line(&mut lines, resolution);
    let mut encoder = String::from_str("[Encoder:\t");
    encoder.append(permutation.encoder.as_str());
    encoder.append("]");
    assert(encoder@ =~= "[Encoder:\t"@ + permutation.encoder@ + "]"@);
    push_header_line(&mut lines, encoder);
    let mut fps = String::from_str("[FPS:\t\t");
    push_decimal(&mut fps, permutation.metadata.fps as u64);
    fps.append("]");
    assert(fps@ =~= "[FPS:\t\t"@ + decimal(permutation.metadata.fps as nat) + "]"@);
    push_header_line(&mut lines, fps);
    let mut bitrate = String::from_str("[Bitrate:\t");
    push_decimal(&mut bitrate, permutation.bitrate as u64);
    bitrate.append("Mb/s]");
    assert(bitrate@ =~= "[Bitrate:\t"@ + decimal(permutation.bitrate as nat) + "Mb/s]"@);
    push_header_line(&mut lines, bitrate);
    let mut settings = String::from_str("[");
    settings.append(permutation.encoder_settings.as_str());
    settings.append("]");
    assert(settings@ =~= "["@ + permutation.encoder_settings@ + "]"@);
    push_header_line(&mut lines, settings);
    assert(texts(lines@) =~= header_lines(
        index as nat,
        permutations@,
        calc_time,
        log_eta,
        ignore_factor,
    ));
    lines
}

/// The header of a trial of the search, with the time that is left.
pub fn log_permutation_header(
    index: usize,
    permutations: &Vec<Permutation>,
    calc_time: Option<u64>,
    ignore_factor: IgnoreFactor,
) -> (r: Vec<String>)
    requires
        index < permutations@.len(),
        calc_time is Some ==> index >= 1,
        ignore_factor.wf(),
    ensures
        texts(r@) == header_lines(index as nat, permutations@, calc_time, true, ignore_factor),
{
    log_header(index, permutations, calc_time, true, ignore_factor)
}

/// The header of a trial of the standard benchmark: no time is told, since
/// every encode there is different.
pub fn log_benchmark_header(index: usize, permutations: &Vec<Permutation>) -> (r: Vec<String>)
    requires
        index < permutations@.len(),
    ensures
        texts(r@) == header_lines(
            index as nat,
            permutations@,
            None,
            false,
            IgnoreFactor { kept: 1, seen: 1 },
        ),
{
    log_header(index, permutations, None, false, IgnoreFactor::whole())
}

/// What follows an encode that ended as `trial` says. Cancellation comes
/// first. A failed encoder is diagnosed and the run given up; it is never
/// tried again. An overload is tried again once, and only where overload
/// detection was asked for. The encoder process is killed on every path but
/// that of an encode that ran to its end.
pub open spec fn trial_decision(
    was_overloaded: bool,
    ffmpeg_error: bool,
    cancelled: bool,
    detect_overload: bool,
    retries: nat,
) -> TrialDecision {
    TrialDecision {
        step: if cancelled {
            TrialStep::Cancelled
        } else if ffmpeg_error {
            TrialStep::DiagnoseAndAbort
        } else if was_overloaded && detect_overload && retries == 0 {
            TrialStep::RetryEncode
        } else {
            TrialStep::Accept
        },
        kill_child: cancelled || ffmpeg_error || was_overloaded,
    }
}

/// Decides what follows an encode, after `retries` earlier retries of the
/// same trial.
pub fn run_overload_benchmark(
    trial: &TrialResult,
    cancelled: bool,
    detect_overload: bool,
    retries: u32,
) -> (r: TrialDecision)
    ensures
        r == trial_decision(
            trial.was_overloaded,
            trial.ffmpeg_error,
            cancelled,
            detect_overload,
            retries as nat,
        ),
{
    let step = if cancelled {
        TrialStep::Cancelled
    } else if trial.ffmpeg_error {
        TrialStep::DiagnoseAndAbort
    } else if trial.was_overloaded && detect_overload && retries == 0 {
        TrialStep::RetryEncode
    } else {
        TrialStep::Accept
    };
    TrialDecision { step, kill_child: cancelled || trial.ffmpeg_error || trial.was_overloaded }
}

/// The arguments of the encode of a trial.
pub fn encode_args(p: &Permutation) -> (r: FfmpegArgs)
    ensures
        r.first_input@ == p.video_file@,
        r.encoder@ == p.encoder@,
        r.encoder_args@ == p.encoder_settings@,
        r.bitrate == p.bitrate,
        r.fps_limit == 0,
        !r.report,
        r.send_progress,
        r.second_input@ == Seq::<char>::empty(),
        r.output_args@ == NO_OUTPUT@,
        !r.is_vmaf,
        r.stats_period_ms == 500,
{
    FfmpegArgs::build_ffmpeg_args(
        p.video_file.clone(),
        p.encoder.clone(),
        &p.encoder_settings,
        p.bitrate,
    )
}

/// The arguments that an encoder process is really started with, and
/// whether its output is shown: a process that is started to show why it
/// failed drops its output file and sends no progress.
pub fn spawn_ffmpeg_child(ffmpeg_args: &FfmpegArgs, log_error_output: Option<bool>) -> (r: (
    FfmpegArgs,
    bool,
))
    ensures
        r.1 == (log_error_output == Some(true)),
        !r.1 ==> r.0.same_as(ffmpeg_args),
        r.1 ==> r.0.output_args@ == NO_OUTPUT@ && !r.0.send_progress && r.0.fps_limit
            == ffmpeg_args.fps_limit && r.0.report == ffmpeg_args.report && r.0.first_input@
            == ffmpeg_args.first_input@ && r.0.second_input@ == ffmpeg_args.second_input@
            && r.0.bitrate == ffmpeg_args.bitrate && r.0.encoder@ == ffmpeg_args.encoder@
            && r.0.encoder_args@ == ffmpeg_args.encoder_args@ && r.0.is_vmaf == ffmpeg_args.is_vmaf
            && r.0.stats_period_ms == ffmpeg_args.stats_period_ms,
{
    let mut effective = ffmpeg_args.clone();
    let show = match log_error_output {
        Some(show) => show,
        None => false,
    };
    if show {
        effective.set_no_output_for_error();
    }
    (effective, show)
}

/// The result of a trial whose encode ended as `trial` says after
/// `encode_time` seconds. The samples are put in ascending order on the way.
pub fn run_encode(
    p: &Permutation,
    metadata: &MetaData,
    trial: &mut TrialResult,
    encode_time: u64,
) -> (r: PermutationResult)
    requires
        old(trial).all_fps@.len() >= MIN_SAMPLES,
    ensures
        sorted(final(trial).all_fps@),
        final(trial).all_fps@.to_multiset() == old(trial).all_fps@.to_multiset(),
        final(trial).was_overloaded == old(trial).was_overloaded,
        final(trial).ffmpeg_error == old(trial).ffmpeg_error,
        r.encoder@ == p.encoder@,
        r.was_overloaded == old(trial).was_overloaded,
        r.bitrate == p.bitrate,
        r.metadata == *metadata,
        r.encoder_settings@ == p.encoder_settings@,
        r.encode_time == encode_time,
        r.vmaf_calculation_time == 0,
        r.vmaf_score.micros == 0,
        r.fps_stats == stats_of(final(trial).all_fps@),
{
    let mut result = PermutationResult::new(
        metadata,
        p.bitrate,
        &p.encoder_settings,
        p.encoder.as_str(),
    );
    result.was_overloaded = trial.was_overloaded;
    result.encode_time = encode_time;
    calculate_fps_statistics(&mut result, trial);
    result
}

} // verus!
