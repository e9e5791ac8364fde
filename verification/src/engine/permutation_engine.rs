//! The search: bitrate tier by bitrate tier, settings by settings, leaving
//! out what is known to score like something else, and ending once a tier
//! reached the quality that is aimed at.

use crate::engine::engine::IgnoreFactor;
use crate::engine::result::PermutationResult;
use crate::ffmpeg::args::{FfmpegArgs, NO_OUTPUT, TCP_LISTEN};
use crate::ffmpeg::report_files::{
    extract_vmaf_score, first_group, score_result, QualityScore, VMAF_PATTERN,
};
use crate::permutation::Permutation;
use crate::text::{
    contains, decimal, has_substring, push_decimal, replace, replaced, same_text,
};
use std::collections::HashSet;
use vstd::prelude::*;
use vstd::std_specs::hash::*;
use vstd::string::StringExecFns;

verus! {

broadcast use vstd::std_specs::hash::group_hash_axioms;

/// The sink of an encode whose output is scored; the braces stand for the
/// container format.
pub const TCP_OUTPUT: &'static str = "-f {} tcp://localhost:2000";

/// The quality that ends the search, in millionths of a point.
pub const TARGET_QUALITY_MICROS: u64 = 95_000_000;

/// How often the quality of one encode is measured before the run is given
/// up.
pub const MAX_ATTEMPTS_CALC_QUALITY: u32 = 3;

/// What follows one attempt to measure the quality of an encode.
#[derive(Clone, Copy, Debug, PartialEq, Eq, Structural)]
pub enum QualityStep {
    /// The measurement gave a score.
    Scored(QualityScore),
    /// The measurement failed: measure again.
    Retry,
    /// The measurement failed for the last time: give the run up.
    GiveUp,
}

/// What the search does with a permutation before it is run.
#[derive(Clone, Copy, Debug, PartialEq, Eq, Structural)]
pub enum SearchStep {
    /// Go on with the next permutation.
    Continue,
    /// The search is over.
    Stop,
}

/// The state of a search: what is to run, what was kept, what scored like
/// something kept, and how far the search has come.
pub struct PermutationEngine {
    pub permutations: Vec<Permutation>,
    pub results: Vec<PermutationResult>,
    pub dup_results: Vec<PermutationResult>,
    /// The scores seen in the first bitrate tier, in millionths.
    pub vmaf_scores: HashSet<u64>,
    pub log_files_directory: String,
    /// How many bitrate tiers are done.
    pub tier_index: usize,
    pub target_quality_found: bool,
    /// The share of permutations that later tiers still run.
    pub ignore_factor: IgnoreFactor,
}

/// Whether some result among `duplicates` has the settings `settings`.
pub open spec fn has_settings(duplicates: Seq<PermutationResult>, settings: Seq<char>) -> bool {
    exists|i: int| 0 <= i < duplicates.len() && (#[trigger] duplicates[i]).encoder_settings@
        == settings
}

/// Whether the settings of a permutation are known to score like settings
/// that were kept.
pub fn will_be_duplicate(duplicates: &Vec<PermutationResult>, next_permutation: &Permutation) -> (r:
    bool)
    ensures
        r == has_settings(duplicates@, next_permutation.encoder_settings@),
{
    let n = duplicates.len();
    let mut i: usize = 0;
    while i < n
        invariant
            i <= n,
            n == duplicates@.len(),
            forall|j: int|
                0 <= j < i ==> (#[trigger] duplicates@[j]).encoder_settings@
                    != next_permutation.encoder_settings@,
        decreases n - i,
    {
        if same_text(
            duplicates[i].encoder_settings.as_str(),
            next_permutation.encoder_settings.as_str(),
        ) {
            return true;
        }
        i += 1;
    }
    false
}

/// Whether no trial so far could keep up: true of no trials at all.
pub fn did_all_permutions_fail(results: &Vec<PermutationResult>) -> (r: bool)
    ensures
        r == (forall|i: int| 0 <= i < results@.len() ==> (#[trigger] results@[i]).was_overloaded),
{
    let n = results.len();
    let mut i: usize = 0;
    while i < n
        invariant
            i <= n,
            n == results@.len(),
            forall|j: int| 0 <= j < i ==> (#[trigger] results@[j]).was_overloaded,
        decreases n - i,
    {
        if !results[i].was_overloaded {
            return false;
        }
        i += 1;
    }
    true
}

/// The container format that an encoder's output is sent in.
pub open spec fn stream_format(encoder: Seq<char>) -> Seq<char> {
    if has_substring(encoder, "h264"@) {
        "h264"@
    } else if has_substring(encoder, "hevc"@) {
        "hevc"@
    } else {
        "ivf"@
    }
}

/// `input` with the container format of `encoder` in place of the braces.
pub fn insert_format_from(input: &str, encoder: &String) -> (r: String)
    ensures
        r@ == replaced(input@, "{}"@, stream_format(encoder@)),
{
    let format = if contains(encoder.as_str(), "h264") {
        "h264"
    } else if contains(encoder.as_str(), "hevc") {
        "hevc"
    } else {
        "ivf"
    };
    replace(input, "{}", format)
}

/// The arguments of the two processes that measure the quality of an
/// encode: first those of the scoring process, which listens for the
/// encoded stream, then those of the encoder, which sends its output there
/// in the container format of the encoder.
pub fn calc_vmaf_args(ffmpeg_args: &FfmpegArgs, fps: u32) -> (r: (FfmpegArgs, FfmpegArgs))
    ensures
        r.0.fps_limit == fps,
        r.0.second_input@ == ffmpeg_args.first_input@,
        r.0.first_input@ == TCP_LISTEN@,
        r.0.output_args@ == NO_OUTPUT@,
        r.0.is_vmaf,
        !r.0.send_progress,
        r.0.report,
        r.0.bitrate == ffmpeg_args.bitrate,
        r.0.encoder@ == ffmpeg_args.encoder@,
        r.0.encoder_args@ == ffmpeg_args.encoder_args@,
        r.0.stats_period_ms == ffmpeg_args.stats_period_ms,
        r.1.output_args@ == replaced(TCP_OUTPUT@, "{}"@, stream_format(ffmpeg_args.encoder@)),
        r.1.fps_limit == ffmpeg_args.fps_limit,
        r.1.report == ffmpeg_args.report,
        r.1.send_progress == ffmpeg_args.send_progress,
        r.1.first_input == ffmpeg_args.first_input,
        r.1.second_input == ffmpeg_args.second_input,
        r.1.bitrate == ffmpeg_args.bitrate,
        r.1.encoder == ffmpeg_args.encoder,
        r.1.encoder_args == ffmpeg_args.encoder_args,
        r.1.is_vmaf == ffmpeg_args.is_vmaf,
        r.1.stats_period_ms == ffmpeg_args.stats_period_ms,
{
    let vmaf_args = ffmpeg_args.map_to_vmaf(fps);
    let mut encoder_args = ffmpeg_args.clone();
    encoder_args.output_args = insert_format_from(TCP_OUTPUT, &ffmpeg_args.encoder);
    (vmaf_args, encoder_args)
}

/// Whether the quality of a trial is measured: only where it was asked for,
/// and never for an encode that could not keep up, since there is nothing
/// worth scoring then.
pub fn should_check_quality(result: &PermutationResult, permutation: &Permutation) -> (r: bool)
    ensures
        r == (!result.was_overloaded && permutation.check_quality),
{
    !result.was_overloaded && permutation.check_quality
}

/// What one attempt to measure quality gave: the score on the score line of
/// the report where the scoring process succeeded and the line holds a
/// score, nothing otherwise.
pub open spec fn measured_score(succeeded: bool, score_line: Seq<char>) -> Option<QualityScore> {
    if succeeded {
        match score_result(first_group(score_line, VMAF_PATTERN@)) {
            Ok(score) => Some(score),
            Err(_) => None,
        }
    } else {
        None
    }
}

/// Reads the outcome of one attempt to measure quality.
pub fn calc_vmaf_score(succeeded: bool, score_line: &str) -> (r: Option<QualityScore>)
    ensures
        r == measured_score(succeeded, score_line@),
{
    if !succeeded {
        return None;
    }
    match extract_vmaf_score(score_line) {
        Ok(score) => Some(score),
        Err(_) => None,
    }
}

/// The name under which the report of a failed measurement is kept: the
/// name of the report without its ending, then the permutation and the
/// attempt, both counted from 1.
pub open spec fn failed_report_name(stem: Seq<char>, perm_num: nat, attempt: nat) -> Seq<char> {
    stem + "-perm-"@ + decimal(perm_num + 1) + "-attempt-"@ + decimal(attempt + 1) + ".log"@
}

/// The name under which the report of a failed measurement is kept.
pub fn failed_report_file_name(stem: &str, perm_num: usize, attempt: u32) -> (r: String)
    requires
        perm_num < usize::MAX,
    ensures
        r@ == failed_report_name(stem@, perm_num as nat, attempt as nat),
{
    let mut name = String::from_str(stem);
    name.append("-perm-");
    push_decimal(&mut name, perm_num as u64 + 1);
    name.append("-attempt-");
    push_decimal(&mut name, attempt as u64 + 1);
    name.append(".log");
    assert(name@ =~= failed_report_name(stem@, perm_num as nat, attempt as nat));
    name
}

/// What follows attempt number `attempt`, counted from 0, to measure the
/// quality of an encode: a score ends the measuring; a failure is followed
/// by another attempt until the last attempt has failed.
pub open spec fn quality_step(attempt: u32, outcome: Option<QualityScore>) -> QualityStep {
    match outcome {
        Some(score) => QualityStep::Scored(score),
        None => if attempt + 1 < MAX_ATTEMPTS_CALC_QUALITY {
            QualityStep::Retry
        } else {
            QualityStep::GiveUp
        },
    }
}

/// Decides what follows one attempt to measure the quality of an encode.
pub fn check_encode_quality(attempt: u32, outcome: Option<QualityScore>) -> (r: QualityStep)
    ensures
        r == quality_step(attempt, outcome),
{
    match outcome {
        Some(score) => QualityStep::Scored(score),
        None => if attempt < MAX_ATTEMPTS_CALC_QUALITY - 1 {
            QualityStep::Retry
        } else {
            QualityStep::GiveUp
        },
    }
}

/// The lists and the set of scores of a search, as values.
pub struct SearchModel {
    pub results: Seq<PermutationResult>,
    pub dup_results: Seq<PermutationResult>,
    pub seen: Set<u64>,
    pub tier_index: nat,
}

impl SearchModel {
    /// Whether a result goes through the mapping of like scores: only in
    /// the first bitrate tier, only where quality is checked and duplicates
    /// are not allowed, and never for an overloaded trial.
    pub open spec fn maps_duplicates(
        &self,
        result: PermutationResult,
        is_checking_quality: bool,
        allow_duplicates: bool,
    ) -> bool {
        self.tier_index == 0 && !allow_duplicates && is_checking_quality && !result.was_overloaded
    }

    /// The lists after a result is taken in. A result that goes through the
    /// mapping is kept, and its score remembered, where the score is new;
    /// it goes to the duplicates where the score was seen. Any other result
    /// is kept.
    pub open spec fn add_result(
        &self,
        result: PermutationResult,
        is_checking_quality: bool,
        allow_duplicates: bool,
    ) -> SearchModel {
        if self.maps_duplicates(result, is_checking_quality, allow_duplicates) {
            if self.seen.contains(result.vmaf_score.micros) {
                SearchModel { dup_results: self.dup_results.push(result), ..*self }
            } else {
                SearchModel {
                    results: self.results.push(result),
                    seen: self.seen.insert(result.vmaf_score.micros),
                    ..*self
                }
            }
        } else {
            SearchModel { results: self.results.push(result), ..*self }
        }
    }

    /// Of two trials of the first bitrate tier that score alike, both
    /// checked for quality with duplicates not allowed, the second goes to
    /// the duplicates and not to the results.
    pub proof fn lemma_second_like_score_is_duplicate(
        &self,
        first: PermutationResult,
        second: PermutationResult,
    )
        requires
            self.tier_index == 0,
            !first.was_overloaded,
            !second.was_overloaded,
            first.vmaf_score == second.vmaf_score,
        ensures
            self.add_result(first, true, false).add_result(second, true, false).dup_results
                == self.add_result(first, true, false).dup_results.push(second),
            self.add_result(first, true, false).add_result(second, true, false).results
                == self.add_result(first, true, false).results,
    {
    }
}

/// Whether permutation `i` is the last of its bitrate tier: the last of
/// all, or followed by one at another bitrate.
pub open spec fn tier_boundary(permutations: Seq<Permutation>, i: int) -> bool {
    i == permutations.len() - 1 || permutations[i + 1].bitrate != permutations[i].bitrate
}

/// The share of permutations that are still run, from the results kept and
/// the results left out so far; unchanged while there are neither.
pub open spec fn factor_after(old_factor: IgnoreFactor, kept: nat, duplicates: nat) -> IgnoreFactor {
    if kept + duplicates > 0 && kept + duplicates <= usize::MAX {
        IgnoreFactor { kept: kept as usize, seen: (kept + duplicates) as usize }
    } else {
        old_factor
    }
}

/// What the decisions of a search depend on, as values: the lists, whether
/// the quality that is aimed at was reached, and the share of permutations
/// that are still run.
pub struct SearchState {
    pub lists: SearchModel,
    pub target_quality_found: bool,
    pub ignore_factor: IgnoreFactor,
}

/// Whether the outcome of a permutation reaches the quality that is aimed
/// at: a trial that was not overloaded, checked for quality, with a score at
/// or above the target. A permutation that was left out reaches nothing.
pub open spec fn reaches_target(p: Permutation, outcome: Option<PermutationResult>) -> bool {
    match outcome {
        Some(result) => !result.was_overloaded && p.check_quality && result.vmaf_score.micros
            >= TARGET_QUALITY_MICROS,
        None => false,
    }
}

impl SearchState {
    /// Whether permutation `i` is left out: its settings are known to score
    /// like settings that were kept, its quality would be checked, and
    /// duplicates are not allowed.
    pub open spec fn skips(&self, permutations: Seq<Permutation>, i: int) -> bool {
        !permutations[i].allow_duplicates && permutations[i].check_quality && has_settings(
            self.lists.dup_results,
            permutations[i].encoder_settings@,
        )
    }

    /// The search after permutation `i` is done with `outcome`; no outcome
    /// means that the permutation was left out. At the end of a bitrate
    /// tier the tier is counted and the share of permutations taken anew.
    pub open spec fn after(
        &self,
        permutations: Seq<Permutation>,
        i: int,
        outcome: Option<PermutationResult>,
    ) -> SearchState {
        let taken = match outcome {
            Some(result) => self.lists.add_result(
                result,
                permutations[i].check_quality,
                permutations[i].allow_duplicates,
            ),
            None => self.lists,
        };
        SearchState {
            lists: if tier_boundary(permutations, i) && taken.tier_index < usize::MAX {
                SearchModel { tier_index: taken.tier_index + 1, ..taken }
            } else {
                taken
            },
            target_quality_found: self.target_quality_found || reaches_target(
                permutations[i],
                outcome,
            ),
            ignore_factor: if tier_boundary(permutations, i) {
                factor_after(self.ignore_factor, taken.results.len(), taken.dup_results.len())
            } else {
                self.ignore_factor
            },
        }
    }

    /// Whether the search is over once permutation `i` has led to this
    /// state: the target was reached, and `i` ends its bitrate tier.
    pub open spec fn ends_search(&self, permutations: Seq<Permutation>, i: int) -> bool {
        self.target_quality_found && tier_boundary(permutations, i)
    }

    /// The search that goes on from permutation `i`, where `trials[k]` is
    /// what permutation `k` gives if it is run: the state at the end, and
    /// the number of the permutation behind the last one that was gone
    /// through. Permutations are gone through in order, each run or left
    /// out, until the search is over or the permutations or the trials run
    /// out.
    pub open spec fn run_from(
        &self,
        permutations: Seq<Permutation>,
        trials: Seq<PermutationResult>,
        i: nat,
    ) -> (SearchState, nat)
        decreases permutations.len() - i,
    {
        if i >= permutations.len() || i >= trials.len() {
            (*self, i)
        } else {
            let outcome = if self.skips(permutations, i as int) {
                None
            } else {
                Some(trials[i as int])
            };
            let next = self.after(permutations, i as int, outcome);
            if next.ends_search(permutations, i as int) {
                (next, i + 1)
            } else {
                next.run_from(permutations, trials, i + 1)
            }
        }
    }

    /// Once the quality that is aimed at was reached, the search goes
    /// through the rest of the bitrate tier and then stops: it ends with
    /// the last permutation of the tier, and no permutation of a later tier
    /// is begun.
    pub proof fn lemma_search_ends_with_the_tier(
        &self,
        permutations: Seq<Permutation>,
        trials: Seq<PermutationResult>,
        i: nat,
        last: nat,
    )
        requires
            self.target_quality_found,
            i <= last < permutations.len(),
            permutations.len() <= trials.len(),
            tier_boundary(permutations, last as int),
            forall|k: int| i <= k < last ==> !tier_boundary(permutations, k),
        ensures
            self.run_from(permutations, trials, i).1 == last + 1,
            self.run_from(permutations, trials, i).0.target_quality_found,
        decreases last - i,
    {
        let outcome = if self.skips(permutations, i as int) {
            None
        } else {
            Some(trials[i as int])
        };
        let next = self.after(permutations, i as int, outcome);
        if i < last {
            next.lemma_search_ends_with_the_tier(permutations, trials, i + 1, last);
        }
    }
}

impl PermutationEngine {
    /// The lists and the set of scores as values.
    pub open spec fn model(&self) -> SearchModel {
        SearchModel {
            results: self.results@,
            dup_results: self.dup_results@,
            seen: self.vmaf_scores@,
            tier_index: self.tier_index as nat,
        }
    }

    /// What the decisions of the search depend on, as values.
    pub open spec fn state(&self) -> SearchState {
        SearchState {
            lists: self.model(),
            target_quality_found: self.target_quality_found,
            ignore_factor: self.ignore_factor,
        }
    }

    /// The share of permutations is a share.
    pub open spec fn wf(&self) -> bool {
        self.ignore_factor.wf()
    }

    /// Every trial whose quality is to be checked has settings to encode
    /// with.
    pub open spec fn scorable(&self) -> bool {
        forall|i: int| 0 <= i < self.permutations@.len() ==> (#[trigger] self.permutations@[i]).wf()
    }

    /// A search with nothing to run yet.
    pub fn new(log_files: String) -> (r: Self)
        ensures
            r.permutations@ == Seq::<Permutation>::empty(),
            r.results@ == Seq::<PermutationResult>::empty(),
            r.dup_results@ == Seq::<PermutationResult>::empty(),
            r.vmaf_scores@ == Set::<u64>::empty(),
            r.log_files_directory@ == log_files@,
            r.tier_index == 0,
            !r.target_quality_found,
            r.ignore_factor == (IgnoreFactor { kept: 1, seen: 1 }),
            r.wf(),
            r.scorable(),
    {
        PermutationEngine {
            permutations: Vec::new(),
            results: Vec::new(),
            dup_results: Vec::new(),
            vmaf_scores: HashSet::new(),
            log_files_directory: log_files,
            tier_index: 0,
            target_quality_found: false,
            ignore_factor: IgnoreFactor::whole(),
        }
    }

    /// Adds a permutation behind those that are there. A permutation whose
    /// quality is to be checked must have settings.
    pub fn add(&mut self, permutation: Permutation)
        requires
            permutation.wf(),
        ensures
            final(self).permutations@ == old(self).permutations@.push(permutation),
            old(self).scorable() ==> final(self).scorable(),
            final(self).state() == old(self).state(),
            final(self).log_files_directory == old(self).log_files_directory,
    {
        self.permutations.push(permutation);
    }

    /// Whether permutation `i` is left out.
    pub fn should_skip(&self, i: usize) -> (r: bool)
        requires
            i < self.permutations@.len(),
        ensures
            r == self.state().skips(self.permutations@, i as int),
    {
        let permutation = &self.permutations[i];
        !permutation.allow_duplicates && permutation.check_quality && will_be_duplicate(
            &self.dup_results,
            permutation,
        )
    }

    /// Whether permutation `i` is the last of its bitrate tier.
    pub fn is_tier_boundary(&self, i: usize) -> (r: bool)
        requires
            i < self.permutations@.len(),
        ensures
            r == tier_boundary(self.permutations@, i as int),
    {
        i == self.permutations.len() - 1 || self.permutations[i + 1].bitrate
            != self.permutations[i].bitrate
    }

    /// Takes a result into the lists.
    pub fn add_result(
        &mut self,
        result: PermutationResult,
        is_checking_quality: bool,
        allow_duplicates: bool,
    )
        ensures
            final(self).model() == old(self).model().add_result(
                result,
                is_checking_quality,
                allow_duplicates,
            ),
            final(self).permutations == old(self).permutations,
            final(self).log_files_directory == old(self).log_files_directory,
            final(self).target_quality_found == old(self).target_quality_found,
            final(self).ignore_factor == old(self).ignore_factor,
    {
        if self.tier_index == 0 && !allow_duplicates && is_checking_quality
            && !result.was_overloaded {
            let score = result.vmaf_score.micros;
            if !self.vmaf_scores.contains(&score) {
                self.results.push(result);
                self.vmaf_scores.insert(score);
            } else {
                self.dup_results.push(result);
            }
        } else {
            // Nothing is left out here: what would be was never run.
            self.results.push(result);
        }
    }

    /// Ends permutation `i`: takes its outcome in, and at the end of a
    /// bitrate tier counts the tier, takes the share of permutations anew,
    /// and ends the search if some trial so far reached the target.
    pub fn finish_permutation(&mut self, i: usize, outcome: Option<PermutationResult>) -> (r:
        SearchStep)
        requires
            i < old(self).permutations@.len(),
            old(self).wf(),
        ensures
            final(self).wf(),
            final(self).permutations == old(self).permutations,
            final(self).log_files_directory == old(self).log_files_directory,
            final(self).state() == old(self).state().after(
                old(self).permutations@,
                i as int,
                outcome,
            ),
            r == (if final(self).state().ends_search(old(self).permutations@, i as int) {
                SearchStep::Stop
            } else {
                SearchStep::Continue
            }),
    {
        let check_quality = self.permutations[i].check_quality;
        let allow_duplicates = self.permutations[i].allow_duplicates;
        match outcome {
            Some(result) => {
                if !result.was_overloaded && check_quality && result.vmaf_score.micros
                    >= TARGET_QUALITY_MICROS {
                    self.target_quality_found = true;
                }
                self.add_result(result, check_quality, allow_duplicates);
            },
            None => {},
        }
        let boundary = self.is_tier_boundary(i);
        if boundary {
            let kept = self.results.len();
            let duplicates = self.dup_results.len();
            if duplicates <= usize::MAX - kept && kept + duplicates > 0 {
                self.ignore_factor = IgnoreFactor { kept, seen: kept + duplicates };
            }
            if self.tier_index < usize::MAX {
                self.tier_index = self.tier_index + 1;
            }
        }
        if self.target_quality_found && boundary {
            SearchStep::Stop
        } else {
            SearchStep::Continue
        }
    }

    /// Goes through the permutations in order, where `trials[k]` is what
    /// permutation `k` gives if it is run, until the search is over or the
    /// permutations or the trials run out. Returns the number of the
    /// permutation behind the last one that was gone through.
    pub fn run(&mut self, trials: &Vec<PermutationResult>) -> (count: usize)
        requires
            old(self).wf(),
        ensures
            final(self).wf(),
            final(self).permutations == old(self).permutations,
            final(self).log_files_directory == old(self).log_files_directory,
            (final(self).state(), count as nat) == old(self).state().run_from(
                old(self).permutations@,
                trials@,
                0,
            ),
    {
        let n = self.permutations.len();
        let m = trials.len();
        let ghost start = self.state();
        let ghost permutations = self.permutations@;
        let mut i: usize = 0;
        while i < n && i < m
            invariant
                i <= n,
                n == permutations.len(),
                m == trials@.len(),
                self.wf(),
                self.permutations == old(self).permutations,
                self.permutations@ == permutations,
                permutations == old(self).permutations@,
                start == old(self).state(),
                self.log_files_directory == old(self).log_files_directory,
                start.run_from(permutations, trials@, 0) == self.state().run_from(
                    permutations,
                    trials@,
                    i as nat,
                ),
            decreases n - i,
        {
            let ghost before = self.state();
            let ghost at = i as nat;
            assert(start.run_from(permutations, trials@, 0) == before.run_from(
                permutations,
                trials@,
                at,
            ));
            let outcome = if self.should_skip(i) {
                None
            } else {
                Some(trials[i].clone())
            };
            let step = self.finish_permutation(i, outcome);
            i += 1;
            match step {
                SearchStep::Stop => {
                    assert(before.run_from(permutations, trials@, at) == (
                        self.state(),
                        i as nat,
                    ));
                    assert(start == old(self).state());
                    assert(permutations == old(self).permutations@);
                    return i;
                },
                SearchStep::Continue => {
                    assert(before.run_from(permutations, trials@, at) == self.state().run_from(
                        permutations,
                        trials@,
                        i as nat,
                    ));
                },
            }
        }
        i
    }
}

} // verus!
