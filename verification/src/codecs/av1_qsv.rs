//! The settings of the Quick Sync encoder for AV1.

use crate::codecs::permute::{
    axis_values, cartesian, lemma_cartesian_len, lemma_cartesian_tuple,
    lemma_product_of_sizes_small, multi_cartesian_product, product_of_sizes, texts, tuple_values,
    SettingsList,
};
use crate::codecs::qsv::{get_qsv_presets, qsv_presets};
use crate::codecs::resolutions::{bitrate_table, resolution_table, scaled_bitrates};
use vstd::hash_map::StringHashMap;
use vstd::prelude::*;
use vstd::string::StringExecFns;

verus! {

/// The option axes of AV1 on Quick Sync and the settings made from them.
pub struct AV1QSV {
    presets: Vec<&'static str>,
    profiles: Vec<&'static str>,
    async_depth: Vec<&'static str>,
    list: SettingsList,
}

/// One choice of a value on each axis.
#[derive(Copy, Clone)]
pub struct AV1QSVSettings {
    pub preset: &'static str,
    pub profile: &'static str,
    pub async_depth: &'static str,
}

/// The axes of AV1 on Quick Sync, in the order in which the settings are
/// generated. A depth of 4 is the only one worth trying: a lower one costs
/// throughput, a higher one gains next to nothing.
pub open spec fn av1_qsv_axes() -> Seq<Seq<&'static str>> {
    seq![qsv_presets(), seq!["main"], seq!["4"]]
}

/// The argument text of the tuple `t` of a product of the AV1 axes.
pub open spec fn av1_qsv_tuple_text(t: Seq<&'static str>) -> Seq<char> {
    (AV1QSVSettings { preset: t[0], profile: t[1], async_depth: t[2] }).text()
}

/// The settings texts that `axes` give, in generation order.
pub open spec fn av1_qsv_permutations(axes: Seq<Seq<&'static str>>) -> Seq<Seq<char>> {
    cartesian(axes).map_values(|t: Seq<&'static str>| av1_qsv_tuple_text(t))
}

/// No settings text is empty: each begins with the name of an option.
pub proof fn lemma_av1_qsv_settings_are_not_empty(axes: Seq<Seq<&'static str>>)
    ensures
        forall|i: int|
            0 <= i < av1_qsv_permutations(axes).len() ==> (#[trigger] av1_qsv_permutations(axes)[i]).len() > 0,
{
    reveal_strlit("-preset ");
    assert forall|i: int| 0 <= i < av1_qsv_permutations(axes).len() implies (#[trigger] av1_qsv_permutations(
        axes,
    )[i]).len() > 0 by {
        assert(av1_qsv_permutations(axes)[i] == av1_qsv_tuple_text(cartesian(axes)[i]));
    }
}

impl AV1QSVSettings {
    /// The encoder arguments that these settings stand for.
    pub open spec fn text(&self) -> Seq<char> {
        "-preset "@ + self.preset@ + " -profile:v "@ + self.profile@ + " -async_depth "@
            + self.async_depth@
    }

    /// Renders the settings as encoder arguments.
    pub fn to_string(&self) -> (r: String)
        ensures
            r@ == self.text(),
    {
        let mut args = String::new();
        args.append("-preset ");
        args.append(self.preset);
        args.append(" -profile:v ");
        args.append(self.profile);
        args.append(" -async_depth ");
        args.append(self.async_depth);
        assert(args@ =~= self.text());
        args
    }
}

impl AV1QSV {
    /// The axes have the sizes that `new` gives them, and the cursor stands
    /// within the settings.
    pub closed spec fn wf(&self) -> bool {
        &&& self.presets@.len() == 7
        &&& self.profiles@.len() == 1
        &&& self.async_depth@.len() == 1
        &&& self.list.wf()
    }

    /// The axes, in generation order: presets, profiles, depths.
    pub closed spec fn axes(&self) -> Seq<Seq<&'static str>> {
        seq![self.presets@, self.profiles@, self.async_depth@]
    }

    /// The settings computed last, in order.
    pub closed spec fn permutations(&self) -> Seq<Seq<char>> {
        self.list.entries()
    }

    /// How many settings the cursor has passed.
    pub closed spec fn position(&self) -> nat {
        self.list.position()
    }

    /// The settings of the standard benchmark.
    pub open spec fn benchmark_text(&self) -> Seq<char> {
        "-preset veryfast -profile:v main"@
    }

    /// The axes of AV1, with no settings computed yet.
    pub fn new() -> (r: Self)
        ensures
            r.wf(),
            r.axes() == av1_qsv_axes(),
            r.permutations() == Seq::<Seq<char>>::empty(),
            r.position() == 0,
    {
        let r = AV1QSV {
            presets: get_qsv_presets(),
            profiles: vec!["main"],
            async_depth: vec!["4"],
            list: SettingsList::new(),
        };
        assert(r.axes() =~~= av1_qsv_axes());
        r
    }

    /// The presets that are tried.
    pub fn presets(&self) -> (r: &Vec<&'static str>)
        ensures
            r@ == self.axes()[0],
    {
        &self.presets
    }

    /// The profiles that are tried.
    pub fn profiles(&self) -> (r: &Vec<&'static str>)
        ensures
            r@ == self.axes()[1],
    {
        &self.profiles
    }

    /// The depths that are tried.
    pub fn async_depth(&self) -> (r: &Vec<&'static str>)
        ensures
            r@ == self.axes()[2],
    {
        &self.async_depth
    }

    /// The settings of the standard benchmark.
    pub fn get_benchmark_settings(&self) -> (r: String)
        ensures
            r@ == self.benchmark_text(),
    {
        String::from_str("-preset veryfast -profile:v main")
    }

    /// What `init` makes of `before`: the same axes, their settings in
    /// generation order, the cursor before the first.
    pub open spec fn initialized_from(&self, before: &Self) -> bool {
        &&& self.wf()
        &&& self.axes() == before.axes()
        &&& self.permutations() == av1_qsv_permutations(before.axes())
        &&& self.position() == 0
    }

    /// Computing the settings a second time, with the axes untouched, gives
    /// the same settings in the same order: as many as the product of the
    /// axis sizes, and none twice over.
    pub proof fn lemma_init_is_idempotent(before: &Self, once: &Self, twice: &Self)
        requires
            once.initialized_from(before),
            twice.initialized_from(once),
        ensures
            twice.permutations() == once.permutations(),
            once.permutations().len() == product_of_sizes(before.axes()),
            twice.permutations().len() == product_of_sizes(before.axes()),
    {
        lemma_cartesian_len(before.axes());
    }

    /// Computes the settings anew from the axes: one for each tuple of their
    /// cartesian product, in its order, with the cursor before the first.
    /// What an earlier call computed is dropped.
    pub fn init(&mut self) -> (r: &Vec<String>)
        requires
            old(self).wf(),
        ensures
            final(self).initialized_from(old(self)),
            final(self).wf(),
            final(self).axes() == old(self).axes(),
            final(self).permutations() == av1_qsv_permutations(old(self).axes()),
            final(self).permutations().len() == product_of_sizes(old(self).axes()),
            final(self).position() == 0,
            texts(r@) == final(self).permutations(),
    {
        let ghost axes = self.axes();
        let ghost expected = av1_qsv_permutations(self.axes());
        proof {
            lemma_product_of_sizes_small(axes);
            lemma_cartesian_len(axes);
            assert(product_of_sizes(axes) == 7) by (nonlinear_arith)
                requires
                    product_of_sizes(axes) == axes[0].len() * (axes[1].len() * axes[2].len()),
                    axes[0].len() == 7,
                    axes[1].len() == 1,
                    axes[2].len() == 1,
            ;
        }
        self.list.reset();
        let lists: Vec<&Vec<&'static str>> = vec![
            &self.presets,
            &self.profiles,
            &self.async_depth,
        ];
        assert(axis_values(lists@) =~= axes);
        let tuples = multi_cartesian_product(lists);
        let count = tuples.len();
        assert(count == cartesian(axes).len()) by {
            assert(tuple_values(tuples@).len() == tuples@.len());
        }
        let mut i: usize = 0;
        while i < count
            invariant
                i <= count,
                count == tuples@.len(),
                count == expected.len(),
                tuple_values(tuples@) == cartesian(axes),
                expected == av1_qsv_permutations(axes),
                self.wf(),
                self.axes() == axes,
                axes.len() == 3,
                self.list.entries() == expected.take(i as int),
                self.list.position() == 0,
            decreases count - i,
        {
            let tuple = &tuples[i];
            proof {
                lemma_cartesian_tuple(axes, i as int);
                assert(tuple_values(tuples@)[i as int] == tuple@);
            }
            let settings = AV1QSVSettings {
                preset: tuple[0],
                profile: tuple[1],
                async_depth: tuple[2],
            };
            self.list.push(settings.to_string());
            proof {
                assert(expected[i as int] == av1_qsv_tuple_text(cartesian(axes)[i as int]));
                assert(expected.take(i + 1) =~= expected.take(i as int).push(expected[i as int]));
            }
            i += 1;
        }
        assert(expected.take(count as int) =~= expected);
        self.list.items()
    }

    /// Whether `next` has settings left to yield.
    pub fn has_next(&self) -> (r: bool)
        requires
            self.wf(),
        ensures
            r == (self.position() < self.permutations().len()),
    {
        self.list.has_next()
    }

    /// Replaces the settings by the single entry of the standard benchmark,
    /// with the cursor before it.
    pub fn run_standard_only(&mut self) -> (r: &Vec<String>)
        requires
            old(self).wf(),
        ensures
            final(self).wf(),
            final(self).axes() == old(self).axes(),
            final(self).permutations() == seq![old(self).benchmark_text()],
            final(self).position() == 0,
            texts(r@) == final(self).permutations(),
    {
        self.list.reset();
        let settings = self.get_benchmark_settings();
        self.list.push(settings);
        assert(self.list.entries() =~= seq![old(self).benchmark_text()]);
        self.list.items()
    }

    /// Yields the settings at the cursor with their index and moves the
    /// cursor on; `None` once all were yielded.
    pub fn next(&mut self) -> (r: Option<(usize, String)>)
        requires
            old(self).wf(),
        ensures
            final(self).wf(),
            final(self).axes() == old(self).axes(),
            final(self).permutations() == old(self).permutations(),
            match r {
                Some((index, settings)) => index == old(self).position() && index < old(self).permutations().len() && settings@ == old(self).permutations()[index as int]
                    && final(self).position() == index + 1,
                None => old(self).position() >= old(self).permutations().len() && final(self).position() == old(self).position(),
            },
    {
        self.list.next()
    }

    /// Yields all the settings that are left, each once and in order, with
    /// their indices.
    pub fn remaining(&mut self) -> (r: Vec<(usize, String)>)
        requires
            old(self).wf(),
        ensures
            final(self).wf(),
            final(self).axes() == old(self).axes(),
            final(self).permutations() == old(self).permutations(),
            final(self).position() == old(self).permutations().len(),
            r@.len() == old(self).permutations().len() - old(self).position(),
            forall|k: int|
                0 <= k < r@.len() ==> (#[trigger] r@[k]).0 == old(self).position() + k && r@[k].1@
                    == old(self).permutations()[old(self).position() + k],
    {
        self.list.remaining()
    }

    /// The standard bitrate, in Mb/s, of each supported resolution at the
    /// given frame rate.
    pub fn get_resolution_to_bitrate_map(fps: u32) -> (r: StringHashMap<u32>)
        ensures
            r@ == resolution_table(scaled_bitrates(seq![20u32, 30u32, 35u32, 70u32], fps)),
    {
        let base: [u32; 4] = [20, 30, 35, 70];
        assert(base@ =~= seq![20u32, 30u32, 35u32, 70u32]);
        bitrate_table(base, fps)
    }
}

} // verus!
