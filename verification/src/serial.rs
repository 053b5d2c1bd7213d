//! Variable-length integers as they stand in front of a message's payload:
//! one byte for a small value, else a marker byte and the value in two, four
//! or eight bytes, least significant first.

use vstd::prelude::*;

verus! {

/// The number of bytes that follow the first byte.
pub open spec fn varint_tail_len(first: u8) -> nat {
    if first < 0xfd {
        0
    } else if first == 0xfd {
        2
    } else if first == 0xfe {
        4
    } else {
        8
    }
}

/// The value of bytes read least significant first. Bytes beyond the eighth
/// do not count.
pub open spec fn le_value(bytes: Seq<u8>) -> int {
    (if bytes.len() > 0 { bytes[0] as int } else { 0 })
    + (if bytes.len() > 1 { bytes[1] * 0x100 } else { 0 })
    + (if bytes.len() > 2 { bytes[2] * 0x1_0000 } else { 0 })
    + (if bytes.len() > 3 { bytes[3] * 0x100_0000 } else { 0 })
    + (if bytes.len() > 4 { bytes[4] * 0x1_0000_0000 } else { 0 })
    + (if bytes.len() > 5 { bytes[5] * 0x100_0000_0000 } else { 0 })
    + (if bytes.len() > 6 { bytes[6] * 0x1_0000_0000_0000 } else { 0 })
    + (if bytes.len() > 7 { bytes[7] * 0x100_0000_0000_0000 } else { 0 })
}

/// The least value that needs a tail of the length that `first` announces.
/// A smaller value in such a tail is not in its shortest form.
pub open spec fn varint_floor(first: u8) -> int {
    if first < 0xfd {
        0
    } else if first == 0xfd {
        0xfd
    } else if first == 0xfe {
        0x1_0000
    } else {
        0x1_0000_0000
    }
}

/// The integer that a first byte and its tail stand for, where it is written
/// in its shortest form.
pub open spec fn varint_value(first: u8, tail: Seq<u8>) -> Option<u64> {
    if first < 0xfd {
        Some(first as u64)
    } else if le_value(tail) < varint_floor(first) {
        None
    } else {
        Some(le_value(tail) as u64)
    }
}

/// The number of bytes to read after the first byte of an integer.
pub fn varint_tail(first: u8) -> (n: usize)
    ensures
        n == varint_tail_len(first),
{
    if first < 0xfd {
        0
    } else if first == 0xfd {
        2
    } else if first == 0xfe {
        4
    } else {
        8
    }
}

/// Decodes an integer from its first byte and the bytes that follow it.
/// A value that would have fitted a shorter form is refused.
pub fn decode_varint(first: u8, tail: &Vec<u8>) -> (r: Option<u64>)
    requires
        tail@.len() == varint_tail_len(first),
    ensures
        r == varint_value(first, tail@),
{
    if first < 0xfd {
        return Some(first as u64);
    }
    let mut value: u64 = tail[0] as u64 + tail[1] as u64 * 0x100;
    if first == 0xfd {
        if value < 0xfd {
            return None;
        }
        return Some(value);
    }
    value = value + tail[2] as u64 * 0x1_0000 + tail[3] as u64 * 0x100_0000;
    if first == 0xfe {
        if value < 0x1_0000 {
            return None;
        }
        return Some(value);
    }
    value = value + tail[4] as u64 * 0x1_0000_0000 + tail[5] as u64 * 0x100_0000_0000 + tail[6] as u64
        * 0x1_0000_0000_0000 + tail[7] as u64 * 0x100_0000_0000_0000;
    if value < 0x1_0000_0000 {
        return None;
    }
    Some(value)
}

} // verus!
