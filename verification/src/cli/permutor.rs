//! Setting up the search: the bitrates to try, and for each bitrate the
//! trials of every settings permutation of the encoder.

use crate::cli::permutor_cli::PermutorCli;
use crate::codecs::amf::{amf_axes, amf_permutations, lemma_amf_settings_are_not_empty, Amf};
use crate::codecs::av1_qsv::{
    av1_qsv_axes, av1_qsv_permutations, lemma_av1_qsv_settings_are_not_empty, AV1QSV,
};
use crate::codecs::nvenc::{
    lemma_nvenc_settings_are_not_empty, nvenc_axes, nvenc_permutations, Nvenc,
};
use crate::codecs::permute::texts;
use crate::codecs::qsv::{lemma_qsv_settings_are_not_empty, qsv_axes, qsv_permutations, QSV};
use crate::codecs::vendor::{get_vendor_for_codec, vendor_of, Vendor};
use crate::engine::permutation_engine::PermutationEngine;
use crate::permutation::Permutation;
use crate::text::{contains, has_substring, same_text};
use vstd::prelude::*;
use vstd::string::StringExecFns;

verus! {

/// The step from one bitrate tier to the next, in Mb/s.
pub const BITRATE_INTERVAL: u32 = 5;

/// The bitrates of a search from `starting_bitrate` up to `max_bitrate`,
/// the largest included where the steps reach it.
pub open spec fn bitrate_tiers(starting_bitrate: u32, max_bitrate: u32) -> Seq<u32> {
    Seq::new(
        ((max_bitrate - starting_bitrate) / (BITRATE_INTERVAL as int) + 1) as nat,
        |i: int| (starting_bitrate + BITRATE_INTERVAL * i) as u32,
    )
}

/// The bitrates of the tiers of a search, ascending.
pub fn get_bitrate_permutations(starting_bitrate: u32, max_bitrate: u32) -> (r: Vec<u32>)
    requires
        starting_bitrate <= max_bitrate,
    ensures
        r@ == bitrate_tiers(starting_bitrate, max_bitrate),
{
    let count = (max_bitrate - starting_bitrate) / BITRATE_INTERVAL + 1;
    let mut bitrates: Vec<u32> = Vec::new();
    let mut i: u32 = 0;
    while i < count
        invariant
            i <= count,
            starting_bitrate <= max_bitrate,
            count == (max_bitrate - starting_bitrate) / (BITRATE_INTERVAL as int) + 1,
            bitrates@.len() == i,
            forall|k: int|
                0 <= k < i ==> #[trigger] bitrates@[k] == starting_bitrate + BITRATE_INTERVAL * k,
        decreases count - i,
    {
        assert(starting_bitrate + BITRATE_INTERVAL * i <= max_bitrate) by (nonlinear_arith)
            requires
                i < count,
                count == (max_bitrate - starting_bitrate) / (BITRATE_INTERVAL as int) + 1,
                BITRATE_INTERVAL == 5,
                starting_bitrate <= max_bitrate,
        ;
        bitrates.push(starting_bitrate + BITRATE_INTERVAL * i);
        i += 1;
    }
    assert(bitrates@ =~= bitrate_tiers(starting_bitrate, max_bitrate));
    bitrates
}

/// The lines that name the special options that are set; none where none
/// is set.
pub open spec fn special_argument_lines(cli: &PermutorCli) -> Seq<Seq<char>> {
    if !(cli.check_quality || cli.detect_overload || cli.verbose || cli.test_run
        || cli.allow_duplicate_scores) {
        Seq::<Seq<char>>::empty()
    } else {
        seq!["\nOptions:"@] + (if cli.detect_overload {
            seq!["  -encoding will stop if overload detected"@]
        } else {
            Seq::<Seq<char>>::empty()
        }) + (if cli.check_quality {
            seq!["  -calculating vmaf score"@]
        } else {
            Seq::<Seq<char>>::empty()
        }) + (if cli.allow_duplicate_scores {
            seq!["  -ignoring whether expected vmaf score will be duplicated"@]
        } else {
            Seq::<Seq<char>>::empty()
        }) + (if cli.verbose {
            seq!["  -verbose enabled"@]
        } else {
            Seq::<Seq<char>>::empty()
        }) + (if cli.test_run {
            seq!["  -test run, will only run 1 permutation"@]
        } else {
            Seq::<Seq<char>>::empty()
        })
    }
}

fn push_line(lines: &mut Vec<String>, wanted: bool, line: &str)
    ensures
        texts(final(lines)@) == texts(old(lines)@) + (if wanted {
            seq![line@]
        } else {
            Seq::<Seq<char>>::empty()
        }),
{
    let ghost before = lines@;
    if wanted {
        lines.push(String::from_str(line));
        assert(texts(lines@) =~= texts(before).push(line@));
    }
    assert(texts(lines@) =~= texts(before) + (if wanted {
        seq![line@]
    } else {
        Seq::<Seq<char>>::empty()
    }));
}

/// The lines that name the special options that are set.
pub fn log_special_arguments(cli: &PermutorCli) -> (r: Vec<String>)
    ensures
        texts(r@) == special_argument_lines(cli),
{
    let mut lines: Vec<String> = Vec::new();
    assert(texts(lines@) =~= Seq::<Seq<char>>::empty());
    if cli.has_special_options() {
        push_line(&mut lines, true, "\nOptions:");
        push_line(&mut lines, cli.detect_overload, "  -encoding will stop if overload detected");
        push_line(&mut lines, cli.check_quality, "  -calculating vmaf score");
        push_line(
            &mut lines,
            cli.allow_duplicate_scores,
            "  -ignoring whether expected vmaf score will be duplicated",
        );
        push_line(&mut lines, cli.verbose, "  -verbose enabled");
        push_line(&mut lines, cli.test_run, "  -test run, will only run 1 permutation");
        assert(texts(lines@) =~= special_argument_lines(cli));
    }
    lines
}

/// What the trial of the search with given settings at a bitrate is like.
pub open spec fn is_search_trial(
    p: &Permutation,
    cli: &PermutorCli,
    settings: Seq<char>,
    bitrate: u32,
) -> bool {
    &&& p.video_file@ == cli.source_file@
    &&& p.encoder@ == cli.encoder@
    &&& p.encoder_settings@ == settings
    &&& p.bitrate == bitrate
    &&& p.check_quality == cli.check_quality
    &&& p.verbose == cli.verbose
    &&& p.detect_overload == cli.detect_overload
    &&& p.allow_duplicates == cli.allow_duplicate_scores
    &&& !p.decode_run
    &&& !p.is_decoding
    &&& !p.ten_bit
    &&& p.metadata.frames == 0
    &&& p.wf()
}

/// The settings that are tried: all of them, or the first alone for a test
/// run.
pub open spec fn tried(settings: Seq<Seq<char>>, test_run: bool) -> Seq<Seq<char>> {
    if test_run && settings.len() > 0 {
        settings.take(1)
    } else {
        settings
    }
}

/// What the search holds after the trials of `settings` at `bitrate` were
/// added to `before`: the trials that were there, then one trial for each
/// of the settings, in order.
pub open spec fn extended_by(
    after: &PermutationEngine,
    before: &PermutationEngine,
    cli: &PermutorCli,
    settings: Seq<Seq<char>>,
    bitrate: u32,
) -> bool {
    &&& after.permutations@.len() == before.permutations@.len() + settings.len()
    &&& forall|k: int|
        0 <= k < before.permutations@.len() ==> #[trigger] after.permutations@[k]
            == before.permutations@[k]
    &&& forall|j: int|
        before.permutations@.len() <= j < after.permutations@.len() ==> is_search_trial(
            &#[trigger] after.permutations@[j],
            cli,
            settings[j - before.permutations@.len()],
            bitrate,
        )
    &&& before.scorable() ==> after.scorable()
    &&& after.model() == before.model()
    &&& after.log_files_directory == before.log_files_directory
    &&& after.target_quality_found == before.target_quality_found
    &&& after.ignore_factor == before.ignore_factor
}

fn add_trials(
    engine: &mut PermutationEngine,
    cli: &PermutorCli,
    entries: &Vec<(usize, String)>,
    bitrate: u32,
)
    requires
        forall|k: int| 0 <= k < entries@.len() ==> (#[trigger] entries@[k]).1@.len() > 0,
    ensures
        extended_by(
            final(engine),
            old(engine),
            cli,
            tried(crate::codecs::permute::yielded(entries@).map_values(
                |e: (usize, Seq<char>)| e.1,
            ), cli.test_run),
            bitrate,
        ),
{
    let ghost all = crate::codecs::permute::yielded(entries@).map_values(|e: (usize, Seq<char>)| e.1);
    let ghost wanted = tried(all, cli.test_run);
    let n = entries.len();
    let stop: usize = if cli.test_run && n > 0 {
        1
    } else {
        n
    };
    let mut i: usize = 0;
    while i < stop
        invariant
            i <= stop <= n,
            n == entries@.len(),
            forall|k: int| 0 <= k < entries@.len() ==> (#[trigger] entries@[k]).1@.len() > 0,
            stop == wanted.len(),
            all == crate::codecs::permute::yielded(entries@).map_values(
                |e: (usize, Seq<char>)| e.1,
            ),
            wanted == tried(all, cli.test_run),
            extended_by(engine, old(engine), cli, wanted.take(i as int), bitrate),
        decreases stop - i,
    {
        let mut permutation = Permutation::new(cli.source_file.clone(), cli.encoder.clone());
        permutation.encoder_settings = entries[i].1.clone();
        permutation.bitrate = bitrate;
        permutation.check_quality = cli.check_quality;
        permutation.verbose = cli.verbose;
        permutation.detect_overload = cli.detect_overload;
        permutation.allow_duplicates = cli.allow_duplicate_scores;
        proof {
            assert(wanted[i as int] == entries@[i as int].1@);
            assert(is_search_trial(&permutation, cli, wanted[i as int], bitrate));
        }
        let ghost before = engine.permutations@;
        engine.add(permutation);
        proof {
            assert(wanted.take(i + 1) =~= wanted.take(i as int).push(wanted[i as int]));
            let base = old(engine).permutations@.len() as int;
            assert forall|j: int|
                base <= j < engine.permutations@.len() implies is_search_trial(
                &#[trigger] engine.permutations@[j],
                cli,
                wanted.take(i + 1)[j - base],
                bitrate,
            ) by {
                if j < base + i {
                    assert(engine.permutations@[j] == before[j]);
                    assert(wanted.take(i + 1)[j - base] == wanted.take(i as int)[j - base]);
                }
            }
        }
        i += 1;
    }
    assert(wanted.take(stop as int) =~= wanted);
}

/// Adds the trials of every NVENC setting at `bitrate`, in generation
/// order; of the first setting alone for a test run.
pub fn build_nvenc_setting_permutations(
    engine: &mut PermutationEngine,
    cli: &PermutorCli,
    bitrate: u32,
)
    ensures
        extended_by(
            final(engine),
            old(engine),
            cli,
            tried(nvenc_permutations(nvenc_axes(cli.encoder@ == "hevc_nvenc"@), cli.gpu), cli.test_run),
            bitrate,
        ),
{
    let mut nvenc = Nvenc::new(same_text(cli.encoder.as_str(), "hevc_nvenc"), cli.gpu);
    nvenc.init();
    let entries = nvenc.remaining();
    proof {
        let all = crate::codecs::permute::yielded(entries@).map_values(|e: (usize, Seq<char>)| e.1);
        assert(all =~= nvenc_permutations(nvenc_axes(cli.encoder@ == "hevc_nvenc"@), cli.gpu));
        lemma_nvenc_settings_are_not_empty(nvenc_axes(cli.encoder@ == "hevc_nvenc"@), cli.gpu);
        assert forall|k: int| 0 <= k < entries@.len() implies (#[trigger] entries@[k]).1@.len()
            > 0 by {
            assert(all[k] == entries@[k].1@);
        }
    }
    add_trials(engine, cli, &entries, bitrate);
}

/// Adds the trials of every AMF setting at `bitrate`, in generation order;
/// of the first setting alone for a test run.
pub fn build_amf_setting_permutations(
    engine: &mut PermutationEngine,
    cli: &PermutorCli,
    bitrate: u32,
)
    ensures
        extended_by(
            final(engine),
            old(engine),
            cli,
            tried(amf_permutations(amf_axes(cli.encoder@ == "hevc_amf"@), cli.gpu), cli.test_run),
            bitrate,
        ),
{
    let mut amf = Amf::new(same_text(cli.encoder.as_str(), "hevc_amf"), cli.gpu);
    amf.init();
    let entries = amf.remaining();
    proof {
        let all = crate::codecs::permute::yielded(entries@).map_values(|e: (usize, Seq<char>)| e.1);
        assert(all =~= amf_permutations(amf_axes(cli.encoder@ == "hevc_amf"@), cli.gpu));
        lemma_amf_settings_are_not_empty(amf_axes(cli.encoder@ == "hevc_amf"@), cli.gpu);
        assert forall|k: int| 0 <= k < entries@.len() implies (#[trigger] entries@[k]).1@.len()
            > 0 by {
            assert(all[k] == entries@[k].1@);
        }
    }
    add_trials(engine, cli, &entries, bitrate);
}

/// Adds the trials of every AV1 setting of Quick Sync at `bitrate`, in
/// generation order; of the first setting alone for a test run.
pub fn build_intel_av1_permutations(
    engine: &mut PermutationEngine,
    cli: &PermutorCli,
    bitrate: u32,
)
    ensures
        extended_by(
            final(engine),
            old(engine),
            cli,
            tried(av1_qsv_permutations(av1_qsv_axes()), cli.test_run),
            bitrate,
        ),
{
    let mut intel_av1 = AV1QSV::new();
    intel_av1.init();
    let entries = intel_av1.remaining();
    proof {
        let all = crate::codecs::permute::yielded(entries@).map_values(|e: (usize, Seq<char>)| e.1);
        assert(all =~= av1_qsv_permutations(av1_qsv_axes()));
        lemma_av1_qsv_settings_are_not_empty(av1_qsv_axes());
        assert forall|k: int| 0 <= k < entries@.len() implies (#[trigger] entries@[k]).1@.len()
            > 0 by {
            assert(all[k] == entries@[k].1@);
        }
    }
    add_trials(engine, cli, &entries, bitrate);
}

/// Adds the trials of every H.264 or HEVC setting of Quick Sync at
/// `bitrate`, in generation order; of the first setting alone for a test
/// run.
pub fn build_intel_igpu_permutations(
    engine: &mut PermutationEngine,
    cli: &PermutorCli,
    bitrate: u32,
)
    ensures
        extended_by(
            final(engine),
            old(engine),
            cli,
            tried(qsv_permutations(qsv_axes(cli.encoder@ == "hevc_qsv"@)), cli.test_run),
            bitrate,
        ),
{
    let mut intel_i_gpu = QSV::new(same_text(cli.encoder.as_str(), "hevc_qsv"));
    intel_i_gpu.init();
    let entries = intel_i_gpu.remaining();
    proof {
        let all = crate::codecs::permute::yielded(entries@).map_values(|e: (usize, Seq<char>)| e.1);
        assert(all =~= qsv_permutations(qsv_axes(cli.encoder@ == "hevc_qsv"@)));
        lemma_qsv_settings_are_not_empty(qsv_axes(cli.encoder@ == "hevc_qsv"@));
        assert forall|k: int| 0 <= k < entries@.len() implies (#[trigger] entries@[k]).1@.len()
            > 0 by {
            assert(all[k] == entries@[k].1@);
        }
    }
    add_trials(engine, cli, &entries, bitrate);
}

/// The settings that the search tries for an encoder: those of its family,
/// and none for an encoder that the search knows no settings of.
pub open spec fn search_settings(cli: &PermutorCli) -> Seq<Seq<char>> {
    match vendor_of(cli.encoder@) {
        Vendor::Nvidia => nvenc_permutations(nvenc_axes(cli.encoder@ == "hevc_nvenc"@), cli.gpu),
        Vendor::AMD => amf_permutations(amf_axes(cli.encoder@ == "hevc_amf"@), cli.gpu),
        Vendor::IntelQSV => if has_substring(cli.encoder@, "av1"@) {
            av1_qsv_permutations(av1_qsv_axes())
        } else {
            qsv_permutations(qsv_axes(cli.encoder@ == "hevc_qsv"@))
        },
        _ => Seq::<Seq<char>>::empty(),
    }
}

/// Adds the trials of one bitrate tier: one for each setting of the
/// encoder's family, in generation order.
pub fn build_setting_permutations(engine: &mut PermutationEngine, cli: &PermutorCli, bitrate: u32)
    ensures
        extended_by(
            final(engine),
            old(engine),
            cli,
            tried(search_settings(cli), cli.test_run),
            bitrate,
        ),
{
    match get_vendor_for_codec(&cli.encoder) {
        Vendor::Nvidia => {
            build_nvenc_setting_permutations(engine, cli, bitrate);
        },
        Vendor::AMD => {
            build_amf_setting_permutations(engine, cli, bitrate);
        },
        Vendor::IntelQSV => {
            if contains(cli.encoder.as_str(), "av1") {
                build_intel_av1_permutations(engine, cli, bitrate);
            } else {
                build_intel_igpu_permutations(engine, cli, bitrate);
            }
        },
        _ => {
            assert(tried(search_settings(cli), cli.test_run) =~= Seq::<Seq<char>>::empty());
        },
    }
}

} // verus!
