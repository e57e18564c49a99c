//! The D3D12 feature level of a device, and what the OpenXR runtime requires of it.

use vstd::prelude::*;

verus! {

pub const D3D_FEATURE_LEVEL_11_0: u32 = 0xb000;

pub const D3D_FEATURE_LEVEL_11_1: u32 = 0xb100;

pub const D3D_FEATURE_LEVEL_12_0: u32 = 0xc000;

pub const D3D_FEATURE_LEVEL_12_1: u32 = 0xc100;

/// A query for the highest of some feature levels that a device supports.
///
/// It has the fields of `D3D12_FEATURE_DATA_FEATURE_LEVELS`: the device reads the first two and
/// writes the third.
#[derive(Debug, Clone, Copy, PartialEq, Eq)]
pub struct FeatureLevelsInfo {
    /// How many levels are asked about.
    pub num_feature_levels: u32,
    /// The levels that are asked about.
    pub feature_levels_requested: [u32; 4],
    /// The highest of them that the device supports.
    pub max_supported_feature_level: u32,
}

/// The feature levels that a device is asked about, highest first.
pub open spec fn requested_feature_levels() -> Seq<u32> {
    seq![
        D3D_FEATURE_LEVEL_12_1,
        D3D_FEATURE_LEVEL_12_0,
        D3D_FEATURE_LEVEL_11_1,
        D3D_FEATURE_LEVEL_11_0,
    ]
}

/// The query that is handed to a device to learn its feature level.
///
/// The field that the device writes is zero, which is no feature level.
pub fn feature_levels_query() -> (query: FeatureLevelsInfo)
    ensures
        query.num_feature_levels == 4,
        query.feature_levels_requested@ == seq![0xc100u32, 0xc000, 0xb100, 0xb000],
        query.num_feature_levels == requested_feature_levels().len(),
        query.feature_levels_requested@ == requested_feature_levels(),
        query.max_supported_feature_level == 0,
{
    let levels: [u32; 4] = [
        D3D_FEATURE_LEVEL_12_1,
        D3D_FEATURE_LEVEL_12_0,
        D3D_FEATURE_LEVEL_11_1,
        D3D_FEATURE_LEVEL_11_0,
    ];
    assert(levels@ =~= requested_feature_levels());
    assert(levels@ =~= seq![0xc100u32, 0xc000, 0xb100, 0xb000]);
    FeatureLevelsInfo {
        num_feature_levels: levels.len() as u32,
        feature_levels_requested: levels,
        max_supported_feature_level: 0,
    }
}

/// The feature level of a device, out of the query that was handed to it.
///
/// The level is what the query holds afterwards, whether or not the device took it.
pub fn get_device_feature_level(answered: &FeatureLevelsInfo) -> (level: u32)
    ensures
        level == answered.max_supported_feature_level,
{
    answered.max_supported_feature_level
}

/// The number that the bits of `value` stand for when read without a sign.
pub open spec fn unsigned(value: i32) -> int {
    if value < 0 {
        value + 0x1_0000_0000
    } else {
        value as int
    }
}

/// Whether a device of feature level `level` is enough where `min_feature_level` is required.
///
/// The OpenXR bindings hold the required level as a signed number; both levels are compared
/// without a sign.
pub open spec fn meets_level(level: u32, min_feature_level: i32) -> bool {
    level >= unsigned(min_feature_level)
}

/// Whether a device of feature level `level` is enough where `min_feature_level` is required.
pub fn meets_feature_level(level: u32, min_feature_level: i32) -> (enough: bool)
    ensures
        enough == meets_level(level, min_feature_level),
        min_feature_level >= 0 && level < min_feature_level ==> !enough,
        min_feature_level >= 0 && level >= min_feature_level ==> enough,
        min_feature_level < 0 && level < min_feature_level + 0x1_0000_0000 ==> !enough,
        min_feature_level < 0 && level >= min_feature_level + 0x1_0000_0000 ==> enough,
{
    let required: u32 = min_feature_level as u32;
    assert(required == unsigned(min_feature_level)) by {
        assert(min_feature_level < 0 ==> min_feature_level as u32 == min_feature_level
            + 0x1_0000_0000) by (bit_vector);
        assert(min_feature_level >= 0 ==> min_feature_level as u32 == min_feature_level)
            by (bit_vector);
    }
    !(level < required)
}

/// The levels of the query come highest first, without repetition.
pub proof fn requested_levels_descend(i: int, j: int)
    requires
        0 <= i < j < requested_feature_levels().len(),
    ensures
        requested_feature_levels()[i] > requested_feature_levels()[j],
{
}

/// A device is enough just where its feature level is no lower than the required one.
pub proof fn level_below_the_required_one_is_refused(level: u32, min_feature_level: i32)
    requires
        min_feature_level >= 0,
    ensures
        level < min_feature_level ==> !meets_level(level, min_feature_level),
        level >= min_feature_level ==> meets_level(level, min_feature_level),
{
}

/// A required level below zero stands for the number with the same bits and no sign: that number
/// is the lowest level that is enough.
pub proof fn negative_requirement_is_read_without_its_sign(level: u32, min_feature_level: i32)
    requires
        min_feature_level < 0,
    ensures
        level < min_feature_level + 0x1_0000_0000 ==> !meets_level(level, min_feature_level),
        level >= min_feature_level + 0x1_0000_0000 ==> meets_level(level, min_feature_level),
        level < 0x8000_0000 ==> !meets_level(level, min_feature_level),
{
}

/// Of two requirements, a device that meets the higher one meets the lower one.
pub proof fn lower_requirements_are_met_more(level: u32, lower: i32, higher: i32)
    requires
        0 <= lower <= higher || lower <= higher < 0,
        meets_level(level, higher),
    ensures
        meets_level(level, lower),
{
}

/// A device of a higher feature level meets every requirement that one of a lower level meets.
pub proof fn higher_levels_meet_more(lower: u32, higher: u32, min_feature_level: i32)
    requires
        lower <= higher,
        meets_level(lower, min_feature_level),
    ensures
        meets_level(higher, min_feature_level),
{
}

/// A device that left the query as it was meets no required level other than zero.
pub proof fn unanswered_query_meets_nothing(min_feature_level: i32)
    ensures
        meets_level(0, min_feature_level) <==> min_feature_level == 0,
{
}

} // verus!
