//! The settings of the VideoToolbox encoders of Apple silicon (H.264, HEVC
//! and ProRes). The encoders share their options but for the profiles; only
//! H.264 has a choice of entropy coder.

use crate::codecs::permute::{
    axis_values, cartesian, lemma_cartesian_len, lemma_cartesian_tuple,
    lemma_product_of_sizes_small, multi_cartesian_product, product_of_sizes, texts, tuple_values,
    SettingsList,
};
use crate::codecs::resolutions::{bitrate_table, resolution_table, scaled_bitrates};
use vstd::hash_map::StringHashMap;
use vstd::prelude::*;
use vstd::string::StringExecFns;

verus! {

/// The option axes of VideoToolbox and the settings made from them.
pub struct Apple {
    profiles: Vec<&'static str>,
    coders: Vec<&'static str>,
    list: SettingsList,
    is_h264: bool,
    is_prores: bool,
}

/// One choice of a value on each axis. An empty coder stands for an encoder
/// without that option.
#[derive(Copy, Clone)]
pub struct AppleSettings {
    pub profile: &'static str,
    pub coder: &'static str,
    pub is_prores: bool,
}

/// The profiles of each encoder; H.264 wins where both flags are set.
pub open spec fn apple_profiles(is_h264: bool, is_prores: bool) -> Seq<&'static str> {
    if is_h264 {
        seq!["baseline", "constrained_baseline", "main", "high", "constrained_high", "extended"]
    } else if is_prores {
        seq!["auto", "proxy", "lt", "standard", "hq", "4444", "xq"]
    } else {
        seq!["main", "main10"]
    }
}

/// The entropy coders of each encoder: none but for H.264.
pub open spec fn apple_coders(is_h264: bool) -> Seq<&'static str> {
    if is_h264 {
        seq!["vlc", "cavlc", "cabac", "ac"]
    } else {
        Seq::<&'static str>::empty()
    }
}

/// The axes of VideoToolbox, in the order in which the settings are
/// generated: profiles, then coders where the encoder has them.
pub open spec fn apple_axes(is_h264: bool, is_prores: bool) -> Seq<Seq<&'static str>> {
    if is_h264 {
        seq![apple_profiles(is_h264, is_prores), apple_coders(is_h264)]
    } else {
        seq![apple_profiles(is_h264, is_prores)]
    }
}

/// The argument text of the tuple `t` of a product of the VideoToolbox axes.
pub open spec fn apple_tuple_text(t: Seq<&'static str>, is_prores: bool) -> Seq<char> {
    if t.len() == 2 {
        (AppleSettings { profile: t[0], coder: t[1], is_prores }).text()
    } else {
        (AppleSettings { profile: t[0], coder: "", is_prores }).text()
    }
}

/// The settings texts that `axes` give, in generation order.
pub open spec fn apple_permutations(axes: Seq<Seq<&'static str>>, is_prores: bool) -> Seq<
    Seq<char>,
> {
    cartesian(axes).map_values(|t: Seq<&'static str>| apple_tuple_text(t, is_prores))
}

impl AppleSettings {
    /// The encoder arguments that these settings stand for: the coder only
    /// where there is one, a constant bitrate but for ProRes, which has none.
    pub open spec fn text(&self) -> Seq<char> {
        "-profile:v "@ + self.profile@ + (if self.coder@.len() == 0 {
            Seq::<char>::empty()
        } else {
            " -coder "@ + self.coder@
        }) + (if self.is_prores {
            Seq::<char>::empty()
        } else {
            " -constant_bit_rate"@ + " true"@
        })
    }

    /// Renders the settings as encoder arguments.
    pub fn to_string(&self) -> (r: String)
        ensures
            r@ == self.text(),
    {
        let mut args = String::new();
        args.append("-profile:v ");
        args.append(self.profile);
        if !self.coder.is_empty() {
            args.append(" -coder ");
            args.append(self.coder);
        }
        if !self.is_prores {
            args.append(" -constant_bit_rate");
            args.append(" true");
        }
        assert(args@ =~= self.text());
        args
    }
}

impl Apple {
    /// The axes have the sizes that `new` gives them, and the cursor stands
    /// within the settings.
    pub closed spec fn wf(&self) -> bool {
        &&& self.list.wf()
        &&& self.profiles@.len() == apple_profiles(self.is_h264, self.is_prores).len()
        &&& self.coders@.len() == apple_coders(self.is_h264).len()
    }

    /// The axes, in generation order: profiles, then coders for H.264.
    pub closed spec fn axes(&self) -> Seq<Seq<&'static str>> {
        if self.is_h264 {
            seq![self.profiles@, self.coders@]
        } else {
            seq![self.profiles@]
        }
    }

    /// Whether these are the settings of H.264.
    pub closed spec fn is_h264(&self) -> bool {
        self.is_h264
    }

    /// Whether ProRes was asked for.
    pub closed spec fn is_prores(&self) -> bool {
        self.is_prores
    }

    /// The settings computed last, in order.
    pub closed spec fn permutations(&self) -> Seq<Seq<char>> {
        self.list.entries()
    }

    /// How many settings the cursor has passed.
    pub closed spec fn position(&self) -> nat {
        self.list.position()
    }

    /// The settings of the standard benchmark, each with its trailing blank.
    pub open spec fn benchmark_text(&self) -> Seq<char> {
        if self.is_h264() {
            "-profile:v baseline -coder vlc -constant_bit_rate true "@
        } else if self.is_prores() {
            "-profile:v auto "@
        } else {
            "-profile:v main -constant_bit_rate true "@
        }
    }

    /// The axes of H.264, of ProRes or, with neither flag, of HEVC, with no
    /// settings computed yet.
    pub fn new(is_h264: bool, is_prores: bool) -> (r: Self)
        ensures
            r.wf(),
            r.axes() == apple_axes(is_h264, is_prores),
            r.is_h264() == is_h264,
            r.is_prores() == is_prores,
            r.permutations() == Seq::<Seq<char>>::empty(),
            r.position() == 0,
    {
        let profiles = if is_h264 {
            vec!["baseline", "constrained_baseline", "main", "high", "constrained_high", "extended"]
        } else if is_prores {
            vec!["auto", "proxy", "lt", "standard", "hq", "4444", "xq"]
        } else {
            vec!["main", "main10"]
        };
        let coders = if is_h264 {
            vec!["vlc", "cavlc", "cabac", "ac"]
        } else {
            Vec::new()
        };
        assert(profiles@ =~= apple_profiles(is_h264, is_prores));
        assert(coders@ =~= apple_coders(is_h264));
        let r = Apple { profiles, coders, list: SettingsList::new(), is_h264, is_prores };
        assert(r.axes() =~~= apple_axes(is_h264, is_prores));
        r
    }

    /// The profiles that are tried.
    pub fn profiles(&self) -> (r: &Vec<&'static str>)
        ensures
            r@ == self.axes()[0],
    {
        &self.profiles
    }

    /// The entropy coders that are tried; none but for H.264.
    pub fn coders(&self) -> (r: &Vec<&'static str>)
        ensures
            self.is_h264() ==> r@ == self.axes()[1],
            !self.is_h264() && self.wf() ==> r@.len() == 0,
    {
        &self.coders
    }

    /// The settings of the standard benchmark.
    pub fn get_benchmark_settings(&self) -> (r: String)
        ensures
            r@ == self.benchmark_text(),
    {
        if self.is_h264 {
            String::from_str("-profile:v baseline -coder vlc -constant_bit_rate true ")
        } else if self.is_prores {
            String::from_str("-profile:v auto ")
        } else {
            String::from_str("-profile:v main -constant_bit_rate true ")
        }
    }

    /// What `init` makes of `before`: the same axes, their settings in
    /// generation order, the cursor before the first.
    pub open spec fn initialized_from(&self, before: &Self) -> bool {
        &&& self.wf()
        &&& self.axes() == before.axes()
        &&& self.is_h264() == before.is_h264()
        &&& self.is_prores() == before.is_prores()
        &&& self.permutations() == apple_permutations(before.axes(), before.is_prores())
        &&& self.position() == 0
    }

    /// Computing the settings a second time, with the axes untouched, gives
    /// the same settings in the same order: as many as the product of the
    /// axis sizes, and none twice over.
    pub proof fn lemma_init_is_idempotent(before: &Self, once: &Self, twice: &Self)
        requires
            once.initialized_from(before),
            twice.initialized_from(once),
        ensures
            twice.permutations() == once.permutations(),
            once.permutations().len() == product_of_sizes(before.axes()),
            twice.permutations().len() == product_of_sizes(before.axes()),
    {
        lemma_cartesian_len(before.axes());
    }

    /// Computes the settings anew from the axes: one for each tuple of their
    /// cartesian product, in its order, with the cursor before the first.
    /// What an earlier call computed is dropped.
    pub fn init(&mut self) -> (r: &Vec<String>)
        requires
            old(self).wf(),
        ensures
            final(self).initialized_from(old(self)),
            final(self).wf(),
            final(self).axes() == old(self).axes(),
            final(self).is_h264() == old(self).is_h264(),
            final(self).is_prores() == old(self).is_prores(),
            final(self).permutations() == apple_permutations(
                old(self).axes(),
                old(self).is_prores(),
            ),
            final(self).permutations().len() == product_of_sizes(old(self).axes()),
            final(self).position() == 0,
            texts(r@) == final(self).permutations(),
    {
        let ghost axes = self.axes();
        let ghost expected = apple_permutations(self.axes(), self.is_prores);
        proof {
            lemma_product_of_sizes_small(axes);
            lemma_cartesian_len(axes);
            if self.is_h264 {
                assert(product_of_sizes(axes) == 24) by (nonlinear_arith)
                    requires
                        product_of_sizes(axes) == axes[0].len() * axes[1].len(),
                        axes[0].len() == 6,
                        axes[1].len() == 4,
                ;
            }
        }
        self.list.reset();
        let lists: Vec<&Vec<&'static str>> = if self.is_h264 {
            vec![&self.profiles, &self.coders]
        } else {
            vec![&self.profiles]
        };
        assert(axis_values(lists@) =~= axes);
        let tuples = multi_cartesian_product(lists);
        let count = tuples.len();
        assert(count == cartesian(axes).len()) by {
            assert(tuple_values(tuples@).len() == tuples@.len());
        }
        let mut i: usize = 0;
        while i < count
            invariant
                i <= count,
                count == tuples@.len(),
                count == expected.len(),
                tuple_values(tuples@) == cartesian(axes),
                expected == apple_permutations(axes, self.is_prores),
                self.wf(),
                self.axes() == axes,
                self.is_h264 == old(self).is_h264,
                self.is_prores == old(self).is_prores,
                axes.len() == (if self.is_h264 {
                    2int
                } else {
                    1int
                }),
                self.list.entries() == expected.take(i as int),
                self.list.position() == 0,
            decreases count - i,
        {
            let tuple = &tuples[i];
            proof {
                lemma_cartesian_tuple(axes, i as int);
                assert(tuple_values(tuples@)[i as int] == tuple@);
            }
            let settings = AppleSettings {
                profile: tuple[0],
                coder: if self.is_h264 {
                    tuple[1]
                } else {
                    ""
                },
                is_prores: self.is_prores,
            };
            self.list.push(settings.to_string());
            proof {
                assert(expected[i as int] == apple_tuple_text(
                    cartesian(axes)[i as int],
                    self.is_prores,
                ));
                assert(expected.take(i + 1) =~= expected.take(i as int).push(expected[i as int]));
            }
            i += 1;
        }
        assert(expected.take(count as int) =~= expected);
        self.list.items()
    }

    /// Whether `next` has settings left to yield.
    pub fn has_next(&self) -> (r: bool)
        requires
            self.wf(),
        ensures
            r == (self.position() < self.permutations().len()),
    {
        self.list.has_next()
    }

    /// Replaces the settings by the single entry of the standard benchmark,
    /// with the cursor before it.
    pub fn run_standard_only(&mut self) -> (r: &Vec<String>)
        requires
            old(self).wf(),
        ensures
            final(self).wf(),
            final(self).axes() == old(self).axes(),
            final(self).permutations() == seq![old(self).benchmark_text()],
            final(self).position() == 0,
            texts(r@) == final(self).permutations(),
            final(self).is_h264() == old(self).is_h264(),
            final(self).is_prores() == old(self).is_prores(),
    {
        self.list.reset();
        let settings = self.get_benchmark_settings();
        self.list.push(settings);
        assert(self.list.entries() =~= seq![old(self).benchmark_text()]);
        self.list.items()
    }

    /// Yields the settings at the cursor with their index and moves the
    /// cursor on; `None` once all were yielded.
    pub fn next(&mut self) -> (r: Option<(usize, String)>)
        requires
            old(self).wf(),
        ensures
            final(self).wf(),
            final(self).axes() == old(self).axes(),
            final(self).permutations() == old(self).permutations(),
            final(self).is_h264() == old(self).is_h264(),
            final(self).is_prores() == old(self).is_prores(),
            match r {
                Some((index, settings)) => index == old(self).position() && index < old(self).permutations().len() && settings@ == old(self).permutations()[index as int]
                    && final(self).position() == index + 1,
                None => old(self).position() >= old(self).permutations().len() && final(self).position() == old(self).position(),
            },
    {
        self.list.next()
    }

    /// Yields all the settings that are left, each once and in order, with
    /// their indices.
    pub fn remaining(&mut self) -> (r: Vec<(usize, String)>)
        requires
            old(self).wf(),
        ensures
            final(self).wf(),
            final(self).axes() == old(self).axes(),
            final(self).permutations() == old(self).permutations(),
            final(self).is_h264() == old(self).is_h264(),
            final(self).is_prores() == old(self).is_prores(),
            final(self).position() == old(self).permutations().len(),
            r@.len() == old(self).permutations().len() - old(self).position(),
            forall|k: int|
                0 <= k < r@.len() ==> (#[trigger] r@[k]).0 == old(self).position() + k && r@[k].1@
                    == old(self).permutations()[old(self).position() + k],
    {
        self.list.remaining()
    }

    /// The standard bitrate, in Mb/s, of each supported resolution at the
    /// given frame rate.
    pub fn get_resolution_to_bitrate_map(fps: u32) -> (r: StringHashMap<u32>)
        ensures
            r@ == resolution_table(scaled_bitrates(seq![10u32, 20u32, 25u32, 55u32], fps)),
    {
        let base: [u32; 4] = [10, 20, 25, 55];
        assert(base@ =~= seq![10u32, 20u32, 25u32, 55u32]);
        bitrate_table(base, fps)
    }
}

} // verus!
