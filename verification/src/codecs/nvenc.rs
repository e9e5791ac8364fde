//! The settings of the NVENC encoders (H.264 and HEVC).

use crate::codecs::permute::{
    axis_values, cartesian, lemma_cartesian_len, lemma_cartesian_tuple,
    lemma_product_of_sizes_small, multi_cartesian_product,
    product_of_sizes, texts, tuple_values, SettingsList,
};
use crate::codecs::resolutions::{bitrate_table, resolution_table, scaled_bitrates};
use crate::text::{decimal, push_decimal};
use vstd::hash_map::StringHashMap;
use vstd::prelude::*;
use vstd::string::StringExecFns;

verus! {

/// The option axes of NVENC and the settings made from them.
pub struct Nvenc {
    presets: Vec<&'static str>,
    tunes: Vec<&'static str>,
    profiles: Vec<&'static str>,
    rate_controls: Vec<&'static str>,
    list: SettingsList,
    gpu: u8,
}

/// One choice of a value on each axis.
#[derive(Copy, Clone)]
pub struct NvencSettings {
    pub preset: &'static str,
    pub tune: &'static str,
    pub profile: &'static str,
    pub rate_control: &'static str,
    pub gpu: u8,
}

/// The presets of NVENC, fastest first.
pub open spec fn nvenc_presets() -> Seq<&'static str> {
    seq!["p1", "p2", "p3", "p4", "p5", "p6", "p7"]
}

/// The tunings of NVENC.
pub open spec fn nvenc_tunes() -> Seq<&'static str> {
    seq!["hq", "ll", "ull"]
}

/// The axes of NVENC, in the order in which the settings are generated; the
/// codecs differ in the profile only.
pub open spec fn nvenc_axes(is_hevc: bool) -> Seq<Seq<&'static str>> {
    seq![
        nvenc_presets(),
        nvenc_tunes(),
        if is_hevc {
            seq!["main"]
        } else {
            seq!["high"]
        },
        seq!["cbr"],
    ]
}

/// The argument text of the tuple `t` of a product of the NVENC axes.
pub open spec fn nvenc_tuple_text(t: Seq<&'static str>, gpu: u8) -> Seq<char> {
    (NvencSettings { preset: t[0], tune: t[1], profile: t[2], rate_control: t[3], gpu }).text()
}

/// The settings texts that `axes` give, in generation order.
pub open spec fn nvenc_permutations(axes: Seq<Seq<&'static str>>, gpu: u8) -> Seq<Seq<char>> {
    cartesian(axes).map_values(|t: Seq<&'static str>| nvenc_tuple_text(t, gpu))
}

/// No settings text is empty: each begins with the name of an option.
pub proof fn lemma_nvenc_settings_are_not_empty(axes: Seq<Seq<&'static str>>, gpu: u8)
    ensures
        forall|i: int|
            0 <= i < nvenc_permutations(axes, gpu).len() ==> (#[trigger] nvenc_permutations(axes, gpu)[i]).len() > 0,
{
    reveal_strlit("-preset ");
    assert forall|i: int| 0 <= i < nvenc_permutations(axes, gpu).len() implies (#[trigger] nvenc_permutations(
        axes, gpu,
    )[i]).len() > 0 by {
        assert(nvenc_permutations(axes, gpu)[i] == nvenc_tuple_text(cartesian(axes)[i], gpu));
    }
}

/// The presets of NVENC, fastest first.
pub fn get_nvenc_presets() -> (r: Vec<&'static str>)
    ensures
        r@ == nvenc_presets(),
{
    let r = vec!["p1", "p2", "p3", "p4", "p5", "p6", "p7"];
    assert(r@ =~= nvenc_presets());
    r
}

/// The tunings of NVENC.
pub fn get_nvenc_tunes() -> (r: Vec<&'static str>)
    ensures
        r@ == nvenc_tunes(),
{
    let r = vec!["hq", "ll", "ull"];
    assert(r@ =~= nvenc_tunes());
    r
}

impl NvencSettings {
    /// The encoder arguments that these settings stand for.
    pub open spec fn text(&self) -> Seq<char> {
        "-preset "@ + self.preset@ + " -tune "@ + self.tune@ + " -profile:v "@ + self.profile@
            + " -rc "@ + self.rate_control@ + " -cbr true"@ + " -gpu "@ + decimal(self.gpu as nat)
    }

    /// Renders the settings as encoder arguments; the bitrate is always
    /// constant.
    pub fn to_string(&self) -> (r: String)
        ensures
            r@ == self.text(),
    {
        let mut args = String::new();
        args.append("-preset ");
        args.append(self.preset);
        args.append(" -tune ");
        args.append(self.tune);
        args.append(" -profile:v ");
        args.append(self.profile);
        args.append(" -rc ");
        args.append(self.rate_control);
        args.append(" -cbr true");
        args.append(" -gpu ");
        push_decimal(&mut args, self.gpu as u64);
        assert(args@ =~= self.text());
        args
    }
}

impl Nvenc {
    /// The axes have the sizes that `new` gives them, and the cursor stands
    /// within the settings.
    pub closed spec fn wf(&self) -> bool {
        &&& self.presets@.len() == 7
        &&& self.tunes@.len() == 3
        &&& self.profiles@.len() == 1
        &&& self.rate_controls@.len() == 1
        &&& self.list.wf()
    }

    /// The axes, in generation order: presets, tunes, profiles, rate controls.
    pub closed spec fn axes(&self) -> Seq<Seq<&'static str>> {
        seq![self.presets@, self.tunes@, self.profiles@, self.rate_controls@]
    }

    /// The GPU that the settings name.
    pub closed spec fn gpu(&self) -> u8 {
        self.gpu
    }

    /// The settings computed last, in order.
    pub closed spec fn permutations(&self) -> Seq<Seq<char>> {
        self.list.entries()
    }

    /// How many settings the cursor has passed.
    pub closed spec fn position(&self) -> nat {
        self.list.position()
    }

    /// The settings of the standard benchmark.
    pub open spec fn benchmark_text(&self) -> Seq<char> {
        "-preset p1 -tune ll -profile:v "@ + self.axes()[2][0]@ + " -rc cbr -cbr true -gpu "@
            + decimal(self.gpu() as nat)
    }

    /// The axes of H.264 or of HEVC on the given GPU, with no settings
    /// computed yet.
    pub fn new(is_hevc: bool, gpu: u8) -> (r: Self)
        ensures
            r.wf(),
            r.axes() == nvenc_axes(is_hevc),
            r.gpu() == gpu,
            r.permutations() == Seq::<Seq<char>>::empty(),
            r.position() == 0,
    {
        let profiles = if is_hevc {
            vec!["main"]
        } else {
            vec!["high"]
        };
        let r = Nvenc {
            presets: get_nvenc_presets(),
            tunes: get_nvenc_tunes(),
            profiles,
            rate_controls: vec!["cbr"],
            list: SettingsList::new(),
            gpu,
        };
        assert(r.axes() =~~= nvenc_axes(is_hevc));
        r
    }

    /// The presets that are tried.
    pub fn presets(&self) -> (r: &Vec<&'static str>)
        ensures
            r@ == self.axes()[0],
    {
        &self.presets
    }

    /// The tunings that are tried.
    pub fn tunes(&self) -> (r: &Vec<&'static str>)
        ensures
            r@ == self.axes()[1],
    {
        &self.tunes
    }

    /// The profiles that are tried.
    pub fn profiles(&self) -> (r: &Vec<&'static str>)
        ensures
            r@ == self.axes()[2],
    {
        &self.profiles
    }

    /// The rate controls that are tried.
    pub fn rate_controls(&self) -> (r: &Vec<&'static str>)
        ensures
            r@ == self.axes()[3],
    {
        &self.rate_controls
    }

    /// The settings of the standard benchmark: fastest preset, low latency.
    pub fn get_benchmark_settings(&self) -> (r: String)
        requires
            self.wf(),
        ensures
            r@ == self.benchmark_text(),
    {
        let mut args = String::new();
        args.append("-preset p1 -tune ll -profile:v ");
        args.append(self.profiles[0]);
        args.append(" -rc cbr -cbr true -gpu ");
        push_decimal(&mut args, self.gpu as u64);
        assert(args@ =~= self.benchmark_text());
        args
    }

    /// Whether `next` has settings left to yield.
    pub fn has_next(&self) -> (r: bool)
        requires
            self.wf(),
        ensures
            r == (self.position() < self.permutations().len()),
    {
        self.list.has_next()
    }

    /// What `init` makes of `before`: the same axes, their settings in
    /// generation order, the cursor before the first.
    pub open spec fn initialized_from(&self, before: &Self) -> bool {
        &&& self.wf()
        &&& self.axes() == before.axes()
        &&& self.gpu() == before.gpu()
        &&& self.permutations() == nvenc_permutations(before.axes(), before.gpu())
        &&& self.position() == 0
    }

    /// Computing the settings a second time, with the axes untouched, gives
    /// the same settings in the same order: as many as the product of the
    /// axis sizes, and none twice over.
    pub proof fn lemma_init_is_idempotent(before: &Self, once: &Self, twice: &Self)
        requires
            once.initialized_from(before),
            twice.initialized_from(once),
        ensures
            twice.permutations() == once.permutations(),
            once.permutations().len() == product_of_sizes(before.axes()),
            twice.permutations().len() == product_of_sizes(before.axes()),
    {
        lemma_cartesian_len(before.axes());
    }

    /// Computes the settings anew from the axes: one for each tuple of their
    /// cartesian product, in its order, with the cursor before the first.
    /// What an earlier call computed is dropped.
    pub fn init(&mut self) -> (r: &Vec<String>)
        requires
            old(self).wf(),
        ensures
            final(self).initialized_from(old(self)),
            final(self).wf(),
            final(self).axes() == old(self).axes(),
            final(self).gpu() == old(self).gpu(),
            final(self).permutations() == nvenc_permutations(old(self).axes(), old(self).gpu()),
            final(self).permutations().len() == product_of_sizes(old(self).axes()),
            final(self).position() == 0,
            texts(r@) == final(self).permutations(),
    {
        let ghost axes = self.axes();
        let ghost expected = nvenc_permutations(self.axes(), self.gpu());
        proof {
            lemma_product_of_sizes_small(axes);
            lemma_cartesian_len(axes);
            assert(product_of_sizes(axes) == 21) by (nonlinear_arith)
                requires
                    product_of_sizes(axes) == axes[0].len() * (axes[1].len() * (axes[2].len()
                        * axes[3].len())),
                    axes[0].len() == 7,
                    axes[1].len() == 3,
                    axes[2].len() == 1,
                    axes[3].len() == 1,
            ;
        }
        self.list.reset();
        let lists: Vec<&Vec<&'static str>> = vec![
            &self.presets,
            &self.tunes,
            &self.profiles,
            &self.rate_controls,
        ];
        assert(axis_values(lists@) =~= axes);
        let tuples = multi_cartesian_product(lists);
        let count = tuples.len();
        assert(count == cartesian(axes).len()) by {
            assert(tuple_values(tuples@).len() == tuples@.len());
        }
        let mut i: usize = 0;
        while i < count
            invariant
                i <= count,
                count == tuples@.len(),
                count == expected.len(),
                tuple_values(tuples@) == cartesian(axes),
                expected == nvenc_permutations(axes, self.gpu()),
                self.wf(),
                self.axes() == axes,
                self.gpu() == old(self).gpu(),
                self.list.entries() == expected.take(i as int),
                self.list.position() == 0,
            decreases count - i,
        {
            let tuple = &tuples[i];
            proof {
                lemma_cartesian_tuple(axes, i as int);
                assert(tuple_values(tuples@)[i as int] == tuple@);
            }
            let settings = NvencSettings {
                preset: tuple[0],
                tune: tuple[1],
                profile: tuple[2],
                rate_control: tuple[3],
                gpu: self.gpu,
            };
            self.list.push(settings.to_string());
            proof {
                assert(expected[i as int] == nvenc_tuple_text(cartesian(axes)[i as int], self.gpu));
                assert(expected.take(i + 1) =~= expected.take(i as int).push(expected[i as int]));
            }
            i += 1;
        }
        assert(expected.take(count as int) =~= expected);
        self.list.items()
    }

    /// Replaces the settings by the single entry of the standard benchmark,
    /// with the cursor before it.
    pub fn run_standard_only(&mut self) -> (r: &Vec<String>)
        requires
            old(self).wf(),
        ensures
            final(self).wf(),
            final(self).axes() == old(self).axes(),
            final(self).gpu() == old(self).gpu(),
            final(self).permutations() == seq![old(self).benchmark_text()],
            final(self).position() == 0,
            texts(r@) == final(self).permutations(),
    {
        self.list.reset();
        let settings = self.get_benchmark_settings();
        self.list.push(settings);
        assert(self.list.entries() =~= seq![old(self).benchmark_text()]);
        self.list.items()
    }

    /// Yields the settings at the cursor with their index and moves the
    /// cursor on; `None` once all were yielded.
    pub fn next(&mut self) -> (r: Option<(usize, String)>)
        requires
            old(self).wf(),
        ensures
            final(self).wf(),
            final(self).axes() == old(self).axes(),
            final(self).gpu() == old(self).gpu(),
            final(self).permutations() == old(self).permutations(),
            match r {
                Some((index, settings)) => index == old(self).position() && index < old(self).permutations().len() && settings@ == old(self).permutations()[index as int]
                    && final(self).position() == index + 1,
                None => old(self).position() >= old(self).permutations().len() && final(self).position() == old(self).position(),
            },
    {
        self.list.next()
    }

    /// Yields all the settings that are left, each once and in order, with
    /// their indices.
    pub fn remaining(&mut self) -> (r: Vec<(usize, String)>)
        requires
            old(self).wf(),
        ensures
            final(self).wf(),
            final(self).axes() == old(self).axes(),
            final(self).gpu() == old(self).gpu(),
            final(self).permutations() == old(self).permutations(),
            final(self).position() == old(self).permutations().len(),
            r@.len() == old(self).permutations().len() - old(self).position(),
            forall|k: int|
                0 <= k < r@.len() ==> (#[trigger] r@[k]).0 == old(self).position() + k && r@[k].1@
                    == old(self).permutations()[old(self).position() + k],
    {
        self.list.remaining()
    }

    /// The standard bitrate, in Mb/s, of each supported resolution at the
    /// given frame rate.
    pub fn get_resolution_to_bitrate_map(fps: u32) -> (r: StringHashMap<u32>)
        ensures
            r@ == resolution_table(scaled_bitrates(seq![10u32, 20u32, 25u32, 55u32], fps)),
    {
        let base: [u32; 4] = [10, 20, 25, 55];
        assert(base@ =~= seq![10u32, 20u32, 25u32, 55u32]);
        bitrate_table(base, fps)
    }
}

} // verus!
