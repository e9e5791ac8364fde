//! The settings of the AMF encoders (H.264 and HEVC).

use crate::codecs::permute::{
    axis_values, cartesian, lemma_cartesian_len, lemma_cartesian_tuple,
    lemma_product_of_sizes_small, multi_cartesian_product, product_of_sizes, texts, tuple_values,
    SettingsList,
};
use crate::codecs::resolutions::{bitrate_table, resolution_table, scaled_bitrates};
use crate::text::{decimal, push_decimal};
use vstd::hash_map::StringHashMap;
use vstd::prelude::*;
use vstd::string::StringExecFns;

verus! {

/// The option axes of AMF and the settings made from them.
pub struct Amf {
    usages: Vec<&'static str>,
    qualities: Vec<&'static str>,
    profiles: Vec<&'static str>,
    profile_tiers: Vec<&'static str>,
    rate_controls: Vec<&'static str>,
    list: SettingsList,
    gpu: u8,
}

/// One choice of a value on each axis. An empty tier stands for an encoder
/// without tiers.
#[derive(Copy, Clone)]
pub struct AmfSettings {
    pub usage: &'static str,
    pub quality: &'static str,
    pub profile: &'static str,
    pub profile_tier: &'static str,
    pub rate_control: &'static str,
    pub gpu: u8,
}

/// The usages of AMF.
pub open spec fn amf_usages() -> Seq<&'static str> {
    seq!["transcoding", "ultralowlatency", "lowlatency", "webcam"]
}

/// The quality presets of AMF.
pub open spec fn amf_quality() -> Seq<&'static str> {
    seq!["balanced", "speed", "quality"]
}

/// The profiles of AMF: HEVC has the main profile only.
pub open spec fn amf_profiles(is_hevc: bool) -> Seq<&'static str> {
    if is_hevc {
        seq!["main"]
    } else {
        seq!["main", "high", "constrained_baseline", "constrained_high"]
    }
}

/// The profile tiers: H.264 has none.
pub open spec fn amf_profile_tiers(is_hevc: bool) -> Seq<&'static str> {
    if is_hevc {
        seq!["main", "high"]
    } else {
        Seq::<&'static str>::empty()
    }
}

/// The axes of AMF, in the order in which the settings are generated:
/// usages, qualities, profiles, tiers where the codec has them, rate
/// controls. Variable rate controls are left out: they do not suit streaming.
pub open spec fn amf_axes(is_hevc: bool) -> Seq<Seq<&'static str>> {
    if is_hevc {
        seq![
            amf_usages(),
            amf_quality(),
            amf_profiles(is_hevc),
            amf_profile_tiers(is_hevc),
            seq!["cbr"],
        ]
    } else {
        seq![amf_usages(), amf_quality(), amf_profiles(is_hevc), seq!["cbr"]]
    }
}

/// The argument text of the tuple `t` of a product of the AMF axes.
pub open spec fn amf_tuple_text(t: Seq<&'static str>, gpu: u8) -> Seq<char> {
    if t.len() == 5 {
        (AmfSettings {
            usage: t[0],
            quality: t[1],
            profile: t[2],
            profile_tier: t[3],
            rate_control: t[4],
            gpu,
        }).text()
    } else {
        (AmfSettings {
            usage: t[0],
            quality: t[1],
            profile: t[2],
            profile_tier: "",
            rate_control: t[3],
            gpu,
        }).text()
    }
}

/// The settings texts that `axes` give, in generation order.
pub open spec fn amf_permutations(axes: Seq<Seq<&'static str>>, gpu: u8) -> Seq<Seq<char>> {
    cartesian(axes).map_values(|t: Seq<&'static str>| amf_tuple_text(t, gpu))
}

/// No settings text is empty: each begins with the name of an option.
pub proof fn lemma_amf_settings_are_not_empty(axes: Seq<Seq<&'static str>>, gpu: u8)
    ensures
        forall|i: int|
            0 <= i < amf_permutations(axes, gpu).len() ==> (#[trigger] amf_permutations(axes, gpu)[i]).len() > 0,
{
    reveal_strlit("-usage ");
    assert forall|i: int| 0 <= i < amf_permutations(axes, gpu).len() implies (#[trigger] amf_permutations(
        axes, gpu,
    )[i]).len() > 0 by {
        assert(amf_permutations(axes, gpu)[i] == amf_tuple_text(cartesian(axes)[i], gpu));
    }
}

/// The profile tiers of a codec.
pub fn get_amf_profile_tiers(hevc: bool) -> (r: Vec<&'static str>)
    ensures
        r@ == amf_profile_tiers(hevc),
{
    if hevc {
        let r = vec!["main", "high"];
        assert(r@ =~= amf_profile_tiers(hevc));
        return r;
    }
    Vec::new()
}

/// The usages of AMF.
pub fn get_amf_usages() -> (r: Vec<&'static str>)
    ensures
        r@ == amf_usages(),
{
    let r = vec!["transcoding", "ultralowlatency", "lowlatency", "webcam"];
    assert(r@ =~= amf_usages());
    r
}

/// The quality presets of AMF.
pub fn get_amf_quality() -> (r: Vec<&'static str>)
    ensures
        r@ == amf_quality(),
{
    let r = vec!["balanced", "speed", "quality"];
    assert(r@ =~= amf_quality());
    r
}

impl AmfSettings {
    /// The encoder arguments that these settings stand for: the tier only
    /// where there is one, the bitrate always constant.
    pub open spec fn text(&self) -> Seq<char> {
        "-usage "@ + self.usage@ + " -quality "@ + self.quality@ + " -profile:v "@ + self.profile@
            + (if self.profile_tier@.len() == 0 {
            Seq::<char>::empty()
        } else {
            " -profile_tier "@ + self.profile_tier@
        }) + " -rc "@ + self.rate_control@ + " -cbr true"@ + " -gpu "@ + decimal(self.gpu as nat)
    }

    /// Renders the settings as encoder arguments.
    pub fn to_string(&self) -> (r: String)
        ensures
            r@ == self.text(),
    {
        let mut args = String::new();
        args.append("-usage ");
        args.append(self.usage);
        args.append(" -quality ");
        args.append(self.quality);
        args.append(" -profile:v ");
        args.append(self.profile);
        if !self.profile_tier.is_empty() {
            args.append(" -profile_tier ");
            args.append(self.profile_tier);
        }
        args.append(" -rc ");
        args.append(self.rate_control);
        args.append(" -cbr true");
        args.append(" -gpu ");
        push_decimal(&mut args, self.gpu as u64);
        assert(args@ =~= self.text());
        args
    }
}

impl Amf {
    /// The axes have the sizes that `new` gives them, and the cursor stands
    /// within the settings.
    pub closed spec fn wf(&self) -> bool {
        &&& self.list.wf()
        &&& self.usages@.len() == 4
        &&& self.qualities@.len() == 3
        &&& 1 <= self.profiles@.len() <= 4
        &&& self.profile_tiers@.len() <= 2
        &&& self.rate_controls@.len() == 1
    }

    /// The axes, in generation order; the tiers are among them only where
    /// there are any.
    pub closed spec fn axes(&self) -> Seq<Seq<&'static str>> {
        if self.profile_tiers@.len() == 0 {
            seq![self.usages@, self.qualities@, self.profiles@, self.rate_controls@]
        } else {
            seq![
                self.usages@,
                self.qualities@,
                self.profiles@,
                self.profile_tiers@,
                self.rate_controls@,
            ]
        }
    }

    /// The GPU that the settings name.
    pub closed spec fn gpu(&self) -> u8 {
        self.gpu
    }

    /// The settings computed last, in order.
    pub closed spec fn permutations(&self) -> Seq<Seq<char>> {
        self.list.entries()
    }

    /// How many settings the cursor has passed.
    pub closed spec fn position(&self) -> nat {
        self.list.position()
    }

    /// The settings of the standard benchmark: both codecs do best on the
    /// main profile.
    pub open spec fn benchmark_text(&self) -> Seq<char> {
        "-usage ultralowlatency -quality speed -profile:v main -rc cbr -cbr true -gpu "@ + decimal(
            self.gpu() as nat,
        )
    }

    /// The axes of H.264 or of HEVC on the given GPU, with no settings
    /// computed yet.
    pub fn new(is_hevc: bool, gpu: u8) -> (r: Self)
        ensures
            r.wf(),
            r.axes() == amf_axes(is_hevc),
            r.gpu() == gpu,
            r.permutations() == Seq::<Seq<char>>::empty(),
            r.position() == 0,
    {
        let profiles = if is_hevc {
            vec!["main"]
        } else {
            vec!["main", "high", "constrained_baseline", "constrained_high"]
        };
        assert(profiles@ =~= amf_profiles(is_hevc));
        let r = Amf {
            usages: get_amf_usages(),
            qualities: get_amf_quality(),
            profiles,
            profile_tiers: get_amf_profile_tiers(is_hevc),
            rate_controls: vec!["cbr"],
            list: SettingsList::new(),
            gpu,
        };
        assert(r.axes() =~~= amf_axes(is_hevc));
        r
    }

    /// The usages that are tried.
    pub fn usages(&self) -> (r: &Vec<&'static str>)
        ensures
            r@ == self.axes()[0],
    {
        &self.usages
    }

    /// The quality presets that are tried.
    pub fn qualities(&self) -> (r: &Vec<&'static str>)
        ensures
            r@ == self.axes()[1],
    {
        &self.qualities
    }

    /// The profiles that are tried.
    pub fn profiles(&self) -> (r: &Vec<&'static str>)
        ensures
            r@ == self.axes()[2],
    {
        &self.profiles
    }

    /// The profile tiers that are tried; none for H.264.
    pub fn profile_tiers(&self) -> (r: &Vec<&'static str>)
        ensures
            self.axes().len() == 5 ==> r@ == self.axes()[3],
            self.axes().len() != 5 ==> r@.len() == 0,
    {
        &self.profile_tiers
    }

    /// The rate controls that are tried.
    pub fn rate_controls(&self) -> (r: &Vec<&'static str>)
        ensures
            r@ == self.axes().last(),
    {
        &self.rate_controls
    }

    /// The settings of the standard benchmark.
    pub fn get_benchmark_settings(&self) -> (r: String)
        ensures
            r@ == self.benchmark_text(),
    {
        let mut args = String::from_str(
            "-usage ultralowlatency -quality speed -profile:v main -rc cbr -cbr true -gpu ",
        );
        push_decimal(&mut args, self.gpu as u64);
        args
    }

    /// What `init` makes of `before`: the same axes, their settings in
    /// generation order, the cursor before the first.
    pub open spec fn initialized_from(&self, before: &Self) -> bool {
        &&& self.wf()
        &&& self.axes() == before.axes()
        &&& self.gpu() == before.gpu()
        &&& self.permutations() == amf_permutations(before.axes(), before.gpu())
        &&& self.position() == 0
    }

    /// Computing the settings a second time, with the axes untouched, gives
    /// the same settings in the same order: as many as the product of the
    /// axis sizes, and none twice over.
    pub proof fn lemma_init_is_idempotent(before: &Self, once: &Self, twice: &Self)
        requires
            once.initialized_from(before),
            twice.initialized_from(once),
        ensures
            twice.permutations() == once.permutations(),
            once.permutations().len() == product_of_sizes(before.axes()),
            twice.permutations().len() == product_of_sizes(before.axes()),
    {
        lemma_cartesian_len(before.axes());
    }

    /// Computes the settings anew from the axes: one for each tuple of their
    /// cartesian product, in its order, with the cursor before the first.
    /// What an earlier call computed is dropped.
    pub fn init(&mut self) -> (r: &Vec<String>)
        requires
            old(self).wf(),
        ensures
            final(self).initialized_from(old(self)),
            final(self).wf(),
            final(self).axes() == old(self).axes(),
            final(self).gpu() == old(self).gpu(),
            final(self).permutations() == amf_permutations(old(self).axes(), old(self).gpu()),
            final(self).permutations().len() == product_of_sizes(old(self).axes()),
            final(self).position() == 0,
            texts(r@) == final(self).permutations(),
    {
        let ghost axes = self.axes();
        let ghost expected = amf_permutations(self.axes(), self.gpu());
        let with_tiers = !self.profile_tiers.is_empty();
        proof {
            lemma_product_of_sizes_small(axes);
            lemma_cartesian_len(axes);
            if with_tiers {
                assert(product_of_sizes(axes) <= 96) by (nonlinear_arith)
                    requires
                        product_of_sizes(axes) == axes[0].len() * (axes[1].len() * (axes[2].len()
                            * (axes[3].len() * axes[4].len()))),
                        axes[0].len() == 4,
                        axes[1].len() == 3,
                        axes[2].len() <= 4,
                        axes[3].len() <= 2,
                        axes[4].len() == 1,
                ;
            } else {
                assert(product_of_sizes(axes) <= 48) by (nonlinear_arith)
                    requires
                        product_of_sizes(axes) == axes[0].len() * (axes[1].len() * (axes[2].len()
                            * axes[3].len())),
                        axes[0].len() == 4,
                        axes[1].len() == 3,
                        axes[2].len() <= 4,
                        axes[3].len() == 1,
                ;
            }
        }
        self.list.reset();
        let lists: Vec<&Vec<&'static str>> = if with_tiers {
            vec![
                &self.usages,
                &self.qualities,
                &self.profiles,
                &self.profile_tiers,
                &self.rate_controls,
            ]
        } else {
            vec![&self.usages, &self.qualities, &self.profiles, &self.rate_controls]
        };
        assert(axis_values(lists@) =~= axes);
        let tuples = multi_cartesian_product(lists);
        let count = tuples.len();
        assert(count == cartesian(axes).len()) by {
            assert(tuple_values(tuples@).len() == tuples@.len());
        }
        let mut i: usize = 0;
        while i < count
            invariant
                i <= count,
                count == tuples@.len(),
                count == expected.len(),
                tuple_values(tuples@) == cartesian(axes),
                expected == amf_permutations(axes, self.gpu()),
                self.wf(),
                self.axes() == axes,
                self.gpu() == old(self).gpu(),
                axes.len() == (if with_tiers {
                    5int
                } else {
                    4int
                }),
                self.list.entries() == expected.take(i as int),
                self.list.position() == 0,
            decreases count - i,
        {
            let tuple = &tuples[i];
            proof {
                lemma_cartesian_tuple(axes, i as int);
                assert(tuple_values(tuples@)[i as int] == tuple@);
            }
            let profile_tier = if with_tiers {
                tuple[3]
            } else {
                ""
            };
            let rc_index: usize = if with_tiers {
                4
            } else {
                3
            };
            let settings = AmfSettings {
                usage: tuple[0],
                quality: tuple[1],
                profile: tuple[2],
                profile_tier,
                rate_control: tuple[rc_index],
                gpu: self.gpu,
            };
            self.list.push(settings.to_string());
            proof {
                assert(expected[i as int] == amf_tuple_text(cartesian(axes)[i as int], self.gpu));
                assert(expected.take(i + 1) =~= expected.take(i as int).push(expected[i as int]));
            }
            i += 1;
        }
        assert(expected.take(count as int) =~= expected);
        self.list.items()
    }

    /// Whether `next` has settings left to yield.
    pub fn has_next(&self) -> (r: bool)
        requires
            self.wf(),
        ensures
            r == (self.position() < self.permutations().len()),
    {
        self.list.has_next()
    }

    /// Replaces the settings by the single entry of the standard benchmark,
    /// with the cursor before it.
    pub fn run_standard_only(&mut self) -> (r: &Vec<String>)
        requires
            old(self).wf(),
        ensures
            final(self).wf(),
            final(self).axes() == old(self).axes(),
            final(self).permutations() == seq![old(self).benchmark_text()],
            final(self).position() == 0,
            texts(r@) == final(self).permutations(),
            final(self).gpu() == old(self).gpu(),
    {
        self.list.reset();
        let settings = self.get_benchmark_settings();
        self.list.push(settings);
        assert(self.list.entries() =~= seq![old(self).benchmark_text()]);
        self.list.items()
    }

    /// Yields the settings at the cursor with their index and moves the
    /// cursor on; `None` once all were yielded.
    pub fn next(&mut self) -> (r: Option<(usize, String)>)
        requires
            old(self).wf(),
        ensures
            final(self).wf(),
            final(self).axes() == old(self).axes(),
            final(self).permutations() == old(self).permutations(),
            final(self).gpu() == old(self).gpu(),
            match r {
                Some((index, settings)) => index == old(self).position() && index < old(self).permutations().len() && settings@ == old(self).permutations()[index as int]
                    && final(self).position() == index + 1,
                None => old(self).position() >= old(self).permutations().len() && final(self).position() == old(self).position(),
            },
    {
        self.list.next()
    }

    /// Yields all the settings that are left, each once and in order, with
    /// their indices.
    pub fn remaining(&mut self) -> (r: Vec<(usize, String)>)
        requires
            old(self).wf(),
        ensures
            final(self).wf(),
            final(self).axes() == old(self).axes(),
            final(self).permutations() == old(self).permutations(),
            final(self).gpu() == old(self).gpu(),
            final(self).position() == old(self).permutations().len(),
            r@.len() == old(self).permutations().len() - old(self).position(),
            forall|k: int|
                0 <= k < r@.len() ==> (#[trigger] r@[k]).0 == old(self).position() + k && r@[k].1@
                    == old(self).permutations()[old(self).position() + k],
    {
        self.list.remaining()
    }

    /// The standard bitrate, in Mb/s, of each supported resolution at the
    /// given frame rate.
    pub fn get_resolution_to_bitrate_map(fps: u32) -> (r: StringHashMap<u32>)
        ensures
            r@ == resolution_table(scaled_bitrates(seq![20u32, 35u32, 50u32, 85u32], fps)),
    {
        let base: [u32; 4] = [20, 35, 50, 85];
        assert(base@ =~= seq![20u32, 35u32, 50u32, 85u32]);
        bitrate_table(base, fps)
    }
}

} // verus!
