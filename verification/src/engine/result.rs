//! What one trial gave, and the report of a whole run.

use crate::codecs::permute::texts;
use crate::engine::fps_stats::FpsStats;
use crate::ffmpeg::metadata::MetaData;
use crate::ffmpeg::report_files::QualityScore;
use crate::text::{decimal, padded, push_char, push_decimal, push_padded};
use vstd::prelude::*;
use vstd::string::StringExecFns;

verus! {

/// The line that opens and closes each part of the report.
pub const RULE: &'static str =
    "==================================================================================================================================================================";

/// The first line of the report.
pub const TITLE: &'static str = "Results from entire permutation:";

/// The column heads of the report.
pub const COLUMNS: &'static str =
    "   [Resolution]\t[FPS]\t[Bitrate]\t[Encode Time]\t[VMAF Time]\t[VMAF Score]\t[Average FPS]\t[1%'ile]\t[90%'ile]\t[Encoder Settings]";

/// The head of each block of settings that scored alike.
pub const DUPLICATES_TITLE: &'static str = "Encoder settings that produced identical scores:";

/// The outcome of one trial.
pub struct PermutationResult {
    pub encoder: String,
    pub was_overloaded: bool,
    pub bitrate: u32,
    pub metadata: MetaData,
    pub encoder_settings: String,
    /// How long the encode took, in seconds.
    pub encode_time: u64,
    /// How long the scoring took, in seconds.
    pub vmaf_calculation_time: u64,
    /// The quality score; zero where none was taken.
    pub vmaf_score: QualityScore,
    pub fps_stats: FpsStats,
}

/// A count with its unit, or nothing for a count of zero.
pub open spec fn unit_text(count: nat, unit: char) -> Seq<char> {
    if count == 0 {
        Seq::<char>::empty()
    } else {
        decimal(count).push(unit)
    }
}

/// A duration in days, hours, minutes and seconds, zero parts left out;
/// `0s` for no time at all.
pub open spec fn dhms_text(seconds: u64) -> Seq<char> {
    let s = seconds as nat;
    if s == 0 {
        "0s"@
    } else {
        unit_text(s / 86_400, 'd') + unit_text((s % 86_400) / 3_600, 'h') + unit_text(
            (s % 3_600) / 60,
            'm',
        ) + unit_text(s % 60, 's')
    }
}

/// Calls `compound_duration::format_dhms`. The contract claims that the
/// text holds the days, hours, minutes and seconds of the duration, each as
/// a number and its letter, parts of zero left out, and `0s` for zero.
#[verifier::external_body]
pub(crate) fn format_dhms(seconds: u64) -> (r: String)
    ensures
        r@ == dhms_text(seconds),
{
    compound_duration::format_dhms(seconds)
}

/// A score to five places behind the point, rounded half up.
pub open spec fn score_fixed(score: QualityScore) -> Seq<char> {
    let v = ((score.micros + 5) / 10) as nat;
    decimal(v / 100_000) + "."@ + padded(v % 100_000, 5)
}

/// The digits of a fraction of `width` places without trailing zeros.
pub open spec fn stripped(frac: nat, width: nat) -> Seq<char>
    decreases width,
{
    if width > 1 && frac % 10 == 0 {
        stripped(frac / 10, (width - 1) as nat)
    } else {
        padded(frac, width)
    }
}

/// A score with as many places behind the point as it needs, and no point
/// where it needs none.
pub open spec fn score_short(score: QualityScore) -> Seq<char> {
    let whole = (score.micros / 1_000_000) as nat;
    let frac = (score.micros % 1_000_000) as nat;
    if frac == 0 {
        decimal(whole)
    } else {
        decimal(whole) + "."@ + stripped(frac, 6)
    }
}

fn push_stripped(out: &mut String, frac: u64, width: u32)
    ensures
        final(out)@ == old(out)@ + stripped(frac as nat, width as nat),
    decreases width,
{
    if width > 1 && frac % 10 == 0 {
        push_stripped(out, frac / 10, width - 1);
    } else {
        push_padded(out, frac, width);
    }
}

fn push_score_fixed(out: &mut String, score: QualityScore)
    ensures
        final(out)@ == old(out)@ + score_fixed(score),
{
    let v: u64 = score.micros / 10 + (if score.micros % 10 >= 5 {
        1u64
    } else {
        0u64
    });
    assert(v == (score.micros + 5) / 10);
    push_decimal(out, v / 100_000);
    out.append(".");
    push_padded(out, v % 100_000, 5);
    assert(final(out)@ =~= old(out)@ + score_fixed(score));
}

fn push_score_short(out: &mut String, score: QualityScore)
    ensures
        final(out)@ == old(out)@ + score_short(score),
{
    let whole = score.micros / 1_000_000;
    let frac = score.micros % 1_000_000;
    push_decimal(out, whole);
    if frac != 0 {
        out.append(".");
        push_stripped(out, frac, 6);
    }
    assert(final(out)@ =~= old(out)@ + score_short(score));
}

impl Clone for PermutationResult {
    fn clone(&self) -> (r: Self)
        ensures
            r == *self,
    {
        PermutationResult {
            encoder: self.encoder.clone(),
            was_overloaded: self.was_overloaded,
            bitrate: self.bitrate,
            metadata: self.metadata,
            encoder_settings: self.encoder_settings.clone(),
            encode_time: self.encode_time,
            vmaf_calculation_time: self.vmaf_calculation_time,
            vmaf_score: self.vmaf_score,
            fps_stats: self.fps_stats,
        }
    }
}

impl PermutationResult {
    /// The result of a trial that has not run yet.
    pub fn new(metadata: &MetaData, bitrate: u32, encoder_settings: &String, encoder: &str) -> (r:
        Self)
        ensures
            r.encoder@ == encoder@,
            !r.was_overloaded,
            r.bitrate == bitrate,
            r.metadata == *metadata,
            r.encoder_settings@ == encoder_settings@,
            r.encode_time == 0,
            r.vmaf_calculation_time == 0,
            r.vmaf_score == (QualityScore { micros: 0 }),
            r.fps_stats == (FpsStats { avg: 0, one_perc_low: 0, ninety_perc: 0 }),
    {
        PermutationResult {
            encoder: String::from_str(encoder),
            was_overloaded: false,
            bitrate,
            metadata: *metadata,
            encoder_settings: encoder_settings.clone(),
            encode_time: 0,
            vmaf_calculation_time: 0,
            vmaf_score: QualityScore { micros: 0 },
            fps_stats: FpsStats::default(),
        }
    }

    /// The overload mark, resolution, frame rate and bitrate of the line.
    pub open spec fn lead_text(&self) -> Seq<char> {
        (if self.was_overloaded {
            "[O]"@
        } else {
            "   "@
        }) + decimal(self.metadata.width as nat) + "x"@ + decimal(self.metadata.height as nat)
            + "\t"@ + decimal(self.metadata.fps as nat) + "\t"@ + decimal(self.bitrate as nat)
            + "Mb/s"@
    }

    /// The score as the line shows it, with the tabs that keep the columns
    /// in line: an overloaded trial and a trial without score take two.
    pub open spec fn score_text(&self) -> Seq<char> {
        if self.was_overloaded {
            score_fixed(self.vmaf_score) + "\t\t"@
        } else if self.vmaf_score.micros != 0 {
            score_fixed(self.vmaf_score) + "\t"@
        } else {
            "0.00000\t\t"@
        }
    }

    /// The line of the report for this trial.
    pub open spec fn text(&self) -> Seq<char> {
        self.lead_text() + "\t\t"@ + dhms_text(self.encode_time) + "\t\t"@ + dhms_text(
            self.vmaf_calculation_time,
        ) + "\t\t"@ + self.score_text() + decimal(self.fps_stats.avg as nat) + "\t\t"@ + decimal(
            self.fps_stats.one_perc_low as nat,
        ) + "\t\t"@ + decimal(self.fps_stats.ninety_perc as nat) + "\t\t"@
            + self.encoder_settings@
    }

    fn push_lead(&self, out: &mut String)
        ensures
            final(out)@ == old(out)@ + self.lead_text(),
    {
        if self.was_overloaded {
            out.append("[O]");
        } else {
            out.append("   ");
        }
        push_decimal(out, self.metadata.width as u64);
        out.append("x");
        push_decimal(out, self.metadata.height as u64);
        out.append("\t");
        push_decimal(out, self.metadata.fps as u64);
        out.append("\t");
        push_decimal(out, self.bitrate as u64);
        out.append("Mb/s");
        assert(final(out)@ =~= old(out)@ + self.lead_text());
    }

    fn push_score(&self, out: &mut String)
        ensures
            final(out)@ == old(out)@ + self.score_text(),
    {
        if self.was_overloaded {
            push_score_fixed(out, self.vmaf_score);
            out.append("\t\t");
        } else if self.vmaf_score.micros != 0 {
            push_score_fixed(out, self.vmaf_score);
            out.append("\t");
        } else {
            out.append("0.00000\t\t");
        }
        assert(final(out)@ =~= old(out)@ + self.score_text());
    }

    /// The line of the report for this trial.
    pub fn to_string(&self) -> (r: String)
        ensures
            r@ == self.text(),
    {
        let mut out = String::new();
        self.push_lead(&mut out);
        out.append("\t\t");
        out.append(format_dhms(self.encode_time).as_str());
        out.append("\t\t");
        out.append(format_dhms(self.vmaf_calculation_time).as_str());
        out.append("\t\t");
        self.push_score(&mut out);
        push_decimal(&mut out, self.fps_stats.avg as u64);
        out.append("\t\t");
        push_decimal(&mut out, self.fps_stats.one_perc_low as u64);
        out.append("\t\t");
        push_decimal(&mut out, self.fps_stats.ninety_perc as u64);
        out.append("\t\t");
        out.append(self.encoder_settings.as_str());
        assert(out@ =~= self.text());
        out
    }

    /// The line that names the score of a block of like scores.
    pub open spec fn identical_text(&self) -> Seq<char> {
        "Identical score: "@ + score_short(self.vmaf_score)
    }

    /// The line that names the settings that were encoded.
    pub open spec fn encoded_text(&self) -> Seq<char> {
        "\tEncoded: ["@ + self.encoder_settings@ + "]"@
    }

    /// The line that names settings that were left out.
    pub open spec fn ignored_text(&self) -> Seq<char> {
        "\tIgnored: ["@ + self.encoder_settings@ + "]"@
    }
}

/// The name of the report file: for a standard benchmark the encoder, for a
/// search the encoder with the resolution and frame rate of the first
/// result.
pub open spec fn report_name(first: &PermutationResult, is_standard: bool) -> Seq<char> {
    if is_standard {
        first.encoder@ + "-benchmark.log"@
    } else {
        first.encoder@ + "-"@ + first.metadata.res_text() + "-"@ + decimal(
            first.metadata.fps as nat,
        ) + ".log"@
    }
}

/// The name of the report file of a run.
pub fn report_file_name(results: &Vec<PermutationResult>, is_standard: bool) -> (r: String)
    requires
        results@.len() > 0,
    ensures
        r@ == report_name(&results@[0], is_standard),
{
    let first = &results[0];
    let mut name = first.encoder.clone();
    if is_standard {
        name.append("-benchmark.log");
    } else {
        name.append("-");
        name.append(first.metadata.get_res().as_str());
        name.append("-");
        push_decimal(&mut name, first.metadata.fps as u64);
        name.append(".log");
    }
    assert(name@ =~= report_name(&results@[0], is_standard));
    name
}

/// One line for each of `dups` that scored as `score`, in their order.
pub open spec fn ignored_lines(dups: Seq<PermutationResult>, score: QualityScore) -> Seq<
    Seq<char>,
>
    decreases dups.len(),
{
    if dups.len() == 0 {
        Seq::<Seq<char>>::empty()
    } else if dups.last().vmaf_score == score {
        ignored_lines(dups.drop_last(), score).push(dups.last().ignored_text())
    } else {
        ignored_lines(dups.drop_last(), score)
    }
}

/// The block of a kept result whose score others shared: a head, the score,
/// the settings that were encoded, the settings that were left out, and a
/// gap. Nothing for a result whose score nobody shared.
pub open spec fn duplicate_block(kept: &PermutationResult, dups: Seq<PermutationResult>) -> Seq<
    Seq<char>,
> {
    let ignored = ignored_lines(dups, kept.vmaf_score);
    if ignored.len() == 0 {
        Seq::<Seq<char>>::empty()
    } else {
        seq![DUPLICATES_TITLE@, RULE@, kept.identical_text(), kept.encoded_text()] + ignored
            + seq!["\n"@]
    }
}

/// The blocks of all the results at `bitrate`, in their order.
pub open spec fn duplicate_section(
    results: Seq<PermutationResult>,
    dups: Seq<PermutationResult>,
    bitrate: u32,
) -> Seq<Seq<char>>
    decreases results.len(),
{
    if results.len() == 0 {
        Seq::<Seq<char>>::empty()
    } else if results.last().bitrate == bitrate {
        duplicate_section(results.drop_last(), dups, bitrate) + duplicate_block(
            &results.last(),
            dups,
        )
    } else {
        duplicate_section(results.drop_last(), dups, bitrate)
    }
}

/// The lines of the results, one per trial.
pub open spec fn result_lines(results: Seq<PermutationResult>) -> Seq<Seq<char>> {
    results.map_values(|r: PermutationResult| r.text())
}

/// The whole report, line by line: title and column heads, one line per
/// trial, the run time, then the blocks of like scores among the trials at
/// the first bitrate.
pub open spec fn report_text(
    results: Seq<PermutationResult>,
    runtime: Seq<char>,
    dups: Seq<PermutationResult>,
    bitrate: u32,
) -> Seq<Seq<char>> {
    seq![TITLE@, RULE@, COLUMNS@] + result_lines(results) + seq![
        RULE@,
        "Benchmark runtime: "@ + runtime + "\n"@,
    ] + duplicate_section(results, dups, bitrate) + seq![RULE@]
}

fn push_ignored(out: &mut Vec<String>, dups: &Vec<PermutationResult>, score: QualityScore) -> (count:
    usize)
    ensures
        texts(final(out)@) == texts(old(out)@) + ignored_lines(dups@, score),
        count == ignored_lines(dups@, score).len(),
{
    let n = dups.len();
    let mut count: usize = 0;
    let mut i: usize = 0;
    assert(dups@.take(0) =~= Seq::<PermutationResult>::empty());
    assert(texts(out@) =~= texts(old(out)@) + ignored_lines(dups@.take(0), score));
    while i < n
        invariant
            i <= n,
            n == dups@.len(),
            count <= i,
            count == ignored_lines(dups@.take(i as int), score).len(),
            texts(out@) == texts(old(out)@) + ignored_lines(dups@.take(i as int), score),
        decreases n - i,
    {
        proof {
            assert(dups@.take(i + 1).drop_last() =~= dups@.take(i as int));
            assert(dups@.take(i + 1).last() == dups@[i as int]);
        }
        if dups[i].vmaf_score.micros == score.micros {
            let mut line = String::from_str("\tIgnored: [");
            line.append(dups[i].encoder_settings.as_str());
            line.append("]");
            assert(line@ =~= dups@[i as int].ignored_text());
            let ghost before = out@;
            out.push(line);
            assert(texts(out@) =~= texts(before).push(line@));
            assert(texts(out@) =~= texts(old(out)@) + ignored_lines(dups@.take(i + 1), score));
            count += 1;
        }
        i += 1;
    }
    assert(dups@.take(n as int) =~= dups@);
    count
}

fn push_text(out: &mut Vec<String>, line: &str)
    ensures
        texts(final(out)@) == texts(old(out)@).push(line@),
{
    let ghost before = out@;
    out.push(String::from_str(line));
    assert(texts(out@) =~= texts(before).push(line@));
}

fn push_block(out: &mut Vec<String>, kept: &PermutationResult, dups: &Vec<PermutationResult>)
    ensures
        texts(final(out)@) == texts(old(out)@) + duplicate_block(kept, dups@),
{
    let mut block: Vec<String> = Vec::new();
    assert(texts(block@) =~= Seq::<Seq<char>>::empty());
    push_text(&mut block, DUPLICATES_TITLE);
    push_text(&mut block, RULE);
    let mut identical = String::from_str("Identical score: ");
    push_score_short(&mut identical, kept.vmaf_score);
    push_text(&mut block, identical.as_str());
    let mut encoded = String::from_str("\tEncoded: [");
    encoded.append(kept.encoder_settings.as_str());
    encoded.append("]");
    assert(encoded@ =~= kept.encoded_text());
    push_text(&mut block, encoded.as_str());
    let ghost head = texts(block@);
    assert(head =~= seq![
        DUPLICATES_TITLE@,
        RULE@,
        kept.identical_text(),
        kept.encoded_text(),
    ]);
    let count = push_ignored(&mut block, dups, kept.vmaf_score);
    if count == 0 {
        assert(texts(out@) =~= texts(old(out)@) + duplicate_block(kept, dups@));
        return ;
    }
    push_text(&mut block, "\n");
    assert(texts(block@) =~= duplicate_block(kept, dups@));
    let ghost before = out@;
    let ghost added = block@;
    out.append(&mut block);
    assert(out@ =~= before + added);
    assert(texts(out@) =~= texts(before) + texts(added));
}

/// The report of a run, line by line, for whoever writes it to a file.
pub fn log_results_to_file(
    results: &Vec<PermutationResult>,
    runtime_str: &String,
    dup_results: &Vec<PermutationResult>,
    bitrate: u32,
) -> (r: Vec<String>)
    ensures
        texts(r@) == report_text(results@, runtime_str@, dup_results@, bitrate),
{
    let mut out: Vec<String> = Vec::new();
    assert(texts(out@) =~= Seq::<Seq<char>>::empty());
    push_text(&mut out, TITLE);
    push_text(&mut out, RULE);
    push_text(&mut out, COLUMNS);
    let ghost head = seq![TITLE@, RULE@, COLUMNS@];
    assert(texts(out@) =~= head);
    let n = results.len();
    let mut i: usize = 0;
    assert(texts(out@) =~= head + result_lines(results@).take(0));
    while i < n
        invariant
            i <= n,
            n == results@.len(),
            texts(out@) == head + result_lines(results@).take(i as int),
        decreases n - i,
    {
        let line = results[i].to_string();
        let ghost before = out@;
        out.push(line);
        assert(texts(out@) =~= texts(before).push(line@));
        assert(result_lines(results@).take(i + 1) =~= result_lines(results@).take(i as int).push(
            result_lines(results@)[i as int],
        ));
        assert(texts(out@) =~= head + result_lines(results@).take(i + 1));
        i += 1;
    }
    assert(result_lines(results@).take(n as int) =~= result_lines(results@));
    push_text(&mut out, RULE);
    let mut runtime = String::from_str("Benchmark runtime: ");
    runtime.append(runtime_str.as_str());
    runtime.append("\n");
    push_text(&mut out, runtime.as_str());
    let ghost body = head + result_lines(results@) + seq![
        RULE@,
        "Benchmark runtime: "@ + runtime_str@ + "\n"@,
    ];
    assert(texts(out@) =~= body);
    let mut k: usize = 0;
    assert(results@.take(0) =~= Seq::<PermutationResult>::empty());
    assert(texts(out@) =~= body + duplicate_section(results@.take(0), dup_results@, bitrate));
    while k < n
        invariant
            k <= n,
            n == results@.len(),
            texts(out@) == body + duplicate_section(results@.take(k as int), dup_results@, bitrate),
        decreases n - k,
    {
        proof {
            assert(results@.take(k + 1).drop_last() =~= results@.take(k as int));
            assert(results@.take(k + 1).last() == results@[k as int]);
        }
        if results[k].bitrate == bitrate {
            let ghost before = texts(out@);
            push_block(&mut out, &results[k], dup_results);
            assert(texts(out@) =~= body + duplicate_section(
                results@.take(k + 1),
                dup_results@,
                bitrate,
            ));
        }
        k += 1;
    }
    assert(results@.take(n as int) =~= results@);
    push_text(&mut out, RULE);
    assert(texts(out@) =~= report_text(results@, runtime_str@, dup_results@, bitrate));
    out
}

} // verus!
