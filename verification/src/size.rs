//! Human-readable rendering of byte counts.

use vstd::prelude::*;
use vstd::string::*;
use crate::text::{decimal, decimal_string, digit_char, digit_str};

verus! {

/// The base of the units: each unit is 1024 of the one before.
pub const THRESHOLD: u64 = 1024;

/// The index of the unit a size is rendered in: 0 for bytes, then K, M, G, T.
/// It is the largest unit that is not larger than the size; sizes beyond the
/// last unit stay in it.
pub open spec fn unit_index(size: nat) -> nat {
    if size < 1024 {
        0
    } else if size < 1048576 {
        1
    } else if size < 1073741824 {
        2
    } else if size < 1099511627776 {
        3
    } else {
        4
    }
}

/// The number of bytes in one unit: 1024 to the power of the index.
pub open spec fn unit_scale(index: nat) -> nat {
    if index == 0 {
        1
    } else if index == 1 {
        1024
    } else if index == 2 {
        1048576
    } else if index == 3 {
        1073741824
    } else {
        1099511627776
    }
}

/// The letter of a unit.
pub open spec fn unit_letter(index: nat) -> char {
    if index == 0 {
        'B'
    } else if index == 1 {
        'K'
    } else if index == 2 {
        'M'
    } else if index == 3 {
        'G'
    } else {
        'T'
    }
}

/// `size / scale` in tenths, rounded to the nearest tenth; a value exactly
/// between two tenths goes to the even one.
pub open spec fn rounded_tenths(size: nat, scale: nat) -> nat
    recommends
        scale > 0,
{
    let q = (size * 10) / scale;
    let r = (size * 10) % scale;
    if 2 * r > scale || (2 * r == scale && q % 2 == 1) {
        q + 1
    } else {
        q
    }
}

/// The rendering of a size: below 1024 the plain byte count followed by `B`;
/// from there on the size in its unit with one decimal place, followed by
/// the unit's letter.
pub open spec fn size_text(size: nat) -> Seq<char> {
    if size < 1024 {
        decimal(size).push('B')
    } else {
        let index = unit_index(size);
        let tenths = rounded_tenths(size, unit_scale(index));
        decimal(tenths / 10).push('.').push(digit_char(tenths % 10)).push(unit_letter(index))
    }
}

/// The unit a size is rendered in: its index and the bytes it holds.
fn pick_unit(size: u64) -> (r: (u8, u64))
    ensures
        r.0 as nat == unit_index(size as nat),
        r.1 as nat == unit_scale(r.0 as nat),
        r.1 > 0,
{
    if size < 1024 {
        (0, 1)
    } else if size < 1048576 {
        (1, 1024)
    } else if size < 1073741824 {
        (2, 1048576)
    } else if size < 1099511627776 {
        (3, 1073741824)
    } else {
        (4, 1099511627776)
    }
}

/// The letter of a unit, as a string.
fn unit_str(index: u8) -> (s: &'static str)
    requires
        index <= 4,
    ensures
        s@ == seq![unit_letter(index as nat)],
{
    proof {
        reveal_strlit("B");
        reveal_strlit("K");
        reveal_strlit("M");
        reveal_strlit("G");
        reveal_strlit("T");
    }
    let s = if index == 0 {
        "B"
    } else if index == 1 {
        "K"
    } else if index == 2 {
        "M"
    } else if index == 3 {
        "G"
    } else {
        "T"
    };
    assert(s@ =~= seq![unit_letter(index as nat)]);
    s
}

/// Formats a size for people, in units of 1024: `B`, `K`, `M`, `G`, `T`.
pub fn format_size(size: u64) -> (r: String)
    ensures
        r@ == size_text(size as nat),
{
    if size < THRESHOLD {
        let r = decimal_string(size as u128).concat(unit_str(0));
        assert(r@ =~= decimal(size as nat).push('B'));
        return r;
    }
    let (index, scale) = pick_unit(size);
    let scaled: u128 = (size as u128) * 10;
    let wide: u128 = scale as u128;
    let q: u128 = scaled / wide;
    let r: u128 = scaled % wide;
    let tenths: u128 = if 2 * r > wide || (2 * r == wide && q % 2 == 1) {
        q + 1
    } else {
        q
    };
    assert(tenths as nat == rounded_tenths(size as nat, unit_scale(index as nat)));
    proof {
        reveal_strlit(".");
    }
    let text = decimal_string(tenths / 10).concat(".").concat(digit_str((tenths % 10) as u8)).concat(
        unit_str(index),
    );
    assert(text@ =~= size_text(size as nat));
    text
}

} // verus!
