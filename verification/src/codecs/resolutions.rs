//! The resolutions that have a standard bitrate, and the table that maps
//! each to its bitrate.

use vstd::hash_map::StringHashMap;
use vstd::prelude::*;
use vstd::string::StringExecFns;

verus! {

/// The frame rate at which every standard bitrate is doubled.
pub const DOUBLE_RATE_FPS: u32 = 120;

/// The table that maps each supported resolution to the bitrate at its place
/// in `bitrates`, in Mb/s.
pub open spec fn resolution_table(bitrates: Seq<u32>) -> Map<Seq<char>, u32> {
    Map::<Seq<char>, u32>::empty().insert("1280x720"@, bitrates[0]).insert(
        "1920x1080"@,
        bitrates[1],
    ).insert("2560x1440"@, bitrates[2]).insert("3840x2160"@, bitrates[3])
}

/// The bitrates for a frame rate: twice the 60 fps values at 120 fps, the 60
/// fps values at any other rate.
pub open spec fn scaled_bitrates(base: Seq<u32>, fps: u32) -> Seq<u32> {
    if fps == DOUBLE_RATE_FPS {
        Seq::new(base.len(), |i: int| (base[i] * 2) as u32)
    } else {
        base
    }
}

/// Enters the four supported resolutions into `map`, each with the bitrate
/// at its place in `bitrates`.
pub fn map_res_to_bitrate(map: &mut StringHashMap<u32>, bitrates: [u32; 4])
    ensures
        final(map)@ == old(map)@.insert("1280x720"@, bitrates@[0]).insert(
            "1920x1080"@,
            bitrates@[1],
        ).insert("2560x1440"@, bitrates@[2]).insert("3840x2160"@, bitrates@[3]),
{
    map.insert(String::from_str("1280x720"), bitrates[0]);
    map.insert(String::from_str("1920x1080"), bitrates[1]);
    map.insert(String::from_str("2560x1440"), bitrates[2]);
    map.insert(String::from_str("3840x2160"), bitrates[3]);
}

/// The bitrate table of an encoder family whose 60 fps bitrates are `base`.
pub fn bitrate_table(base: [u32; 4], fps: u32) -> (r: StringHashMap<u32>)
    requires
        forall|i: int| 0 <= i < 4 ==> base@[i] * 2 <= u32::MAX,
    ensures
        r@ == resolution_table(scaled_bitrates(base@, fps)),
{
    let bitrates: [u32; 4] = if fps == DOUBLE_RATE_FPS {
        [base[0] * 2, base[1] * 2, base[2] * 2, base[3] * 2]
    } else {
        base
    };
    let mut map: StringHashMap<u32> = StringHashMap::new();
    map_res_to_bitrate(&mut map, bitrates);
    assert(bitrates@ =~= scaled_bitrates(base@, fps));
    map
}

} // verus!
