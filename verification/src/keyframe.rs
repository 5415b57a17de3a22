//! Access-unit detection: does an H.264 RTP payload begin a decodable unit?

use vstd::prelude::*;

verus! {

/// NAL unit type of a single-time aggregation packet (STAP-A).
pub const NALU_TTYPE_STAP_A: u32 = 24;

/// NAL unit type of a sequence parameter set.
pub const NALU_TTYPE_SPS: u32 = 7;

/// Mask that selects the five type bits of a NAL unit header octet.
pub const NALU_TYPE_BITMASK: u32 = 0x1F;

/// The first four octets of `data` as one big-endian word.
pub open spec fn leading_word(data: Seq<u8>) -> u32
    recommends
        data.len() >= 4,
{
    ((data[0] as u32) << 24) | ((data[1] as u32) << 16) | ((data[2] as u32) << 8) | (data[3] as u32)
}

/// The type field of the unit itself: the low five bits of the first octet.
pub open spec fn unit_type(data: Seq<u8>) -> u32
    recommends
        data.len() >= 4,
{
    (leading_word(data) >> 24) & NALU_TYPE_BITMASK
}

/// The type field read at the end of the leading word: the low five bits of
/// the fourth octet. In an aggregation packet the two octets after the header
/// hold the size of the first sub-unit, so the fourth octet is that
/// sub-unit's own header.
pub open spec fn first_sub_unit_type(data: Seq<u8>) -> u32
    recommends
        data.len() >= 4,
{
    leading_word(data) & NALU_TYPE_BITMASK
}

/// A payload starts a decodable access unit when it is a parameter set, or an
/// aggregation packet whose first sub-unit is one.
pub open spec fn starts_access_unit(data: Seq<u8>) -> bool {
    data.len() >= 4 && (unit_type(data) == NALU_TTYPE_SPS || (unit_type(data) == NALU_TTYPE_STAP_A
        && first_sub_unit_type(data) == NALU_TTYPE_SPS))
}

pub fn is_key_frame(data: &[u8]) -> (key: bool)
    ensures
        key == starts_access_unit(data@),
{
    if data.len() < 4 {
        false
    } else {
        let word: u32 = ((data[0] as u32) << 24) | ((data[1] as u32) << 16) | ((data[2] as u32)
            << 8) | (data[3] as u32);
        let nalu_type: u32 = (word >> 24) & NALU_TYPE_BITMASK;
        (nalu_type == NALU_TTYPE_STAP_A && (word & NALU_TYPE_BITMASK) == NALU_TTYPE_SPS)
            || nalu_type == NALU_TTYPE_SPS
    }
}

/// The two type fields are the low five bits of the first and of the fourth
/// octet.
pub proof fn lemma_type_fields(data: Seq<u8>)
    requires
        data.len() >= 4,
    ensures
        unit_type(data) == (data[0] & 0x1f) as u32,
        first_sub_unit_type(data) == (data[3] & 0x1f) as u32,
{
    let a = data[0];
    let b = data[1];
    let c = data[2];
    let d = data[3];
    assert(((((a as u32) << 24) | ((b as u32) << 16) | ((c as u32) << 8) | (d as u32)) >> 24)
        & 0x1Fu32 == (a & 0x1f) as u32) by (bit_vector);
    assert((((a as u32) << 24) | ((b as u32) << 16) | ((c as u32) << 8) | (d as u32)) & 0x1Fu32
        == (d & 0x1f) as u32) by (bit_vector);
}

/// No payload of fewer than four octets starts an access unit.
pub proof fn lemma_short_payload_is_no_key_frame(data: Seq<u8>)
    requires
        data.len() < 4,
    ensures
        !starts_access_unit(data),
{
}

/// Every payload of four octets or more whose type field is that of a
/// parameter set starts an access unit.
pub proof fn lemma_parameter_set_is_key_frame(data: Seq<u8>)
    requires
        data.len() >= 4,
        unit_type(data) == NALU_TTYPE_SPS,
    ensures
        starts_access_unit(data),
{
}

} // verus!
