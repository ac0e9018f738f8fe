//! Numeric helpers shared by the widgets: saturating sums, rounded
//! percentages, icon indexing, byte-size rendering.

use vstd::prelude::*;
use vstd::string::*;
use crate::text::{dec_str, u64_to_string};

verus! {

/// Addition on display coordinates saturates at `u64::MAX` instead of
/// wrapping.
pub open spec fn sat_add(a: int, b: int) -> int {
    if a + b > u64::MAX {
        u64::MAX as int
    } else {
        a + b
    }
}

/// Saturating addition.
pub fn sat_add_u64(a: u64, b: u64) -> (r: u64)
    ensures
        r as int == sat_add(a as int, b as int),
{
    if a > u64::MAX - b {
        u64::MAX
    } else {
        a + b
    }
}

/// The icon index a percentage selects from a row of `hi - lo + 1` icons:
/// linear in the percentage and clamped to `hi`.
pub open spec fn spec_percentage_to_index(percent: int, lo: int, hi: int) -> int {
    let scaled = if percent > 100 {
        100int
    } else {
        percent
    };
    let idx = lo + scaled * (hi - lo + 1) / 100;
    if idx > hi {
        hi
    } else {
        idx
    }
}

/// Maps a percentage to an index in `bounds.0 ..= bounds.1`.
pub fn percentage_to_index(percent: u64, bounds: (usize, usize)) -> (r: usize)
    requires
        bounds.0 <= bounds.1,
    ensures
        r as int == spec_percentage_to_index(percent as int, bounds.0 as int, bounds.1 as int),
        bounds.0 <= r <= bounds.1,
{
    let (lo, hi) = bounds;
    let scaled: u128 = if percent > 100 {
        100
    } else {
        percent as u128
    };
    let count: u128 = hi as u128 - lo as u128 + 1;
    proof {
        assert(scaled as int * count as int <= 100 * count as int) by (nonlinear_arith)
            requires
                0 <= scaled as int <= 100,
                count as int >= 0,
        ;
    }
    let idx: u128 = lo as u128 + scaled * count / 100;
    if idx > hi as u128 {
        hi
    } else {
        idx as usize
    }
}

/// The percentage `100 * now / full` rounded to the nearest integer,
/// saturated to `u64::MAX`.
pub open spec fn rounded_percent(now: int, full: int) -> int {
    (200 * now + full) / (2 * full)
}

/// `rounded_percent` saturated to `u64::MAX`.
pub open spec fn spec_percent_of(now: int, full: int) -> u64 {
    if rounded_percent(now, full) > u64::MAX {
        u64::MAX
    } else {
        rounded_percent(now, full) as u64
    }
}

/// Rounded percentage of `now` against `full`; `None` exactly when `full`
/// is zero.
pub fn percent_of(now: u64, full: u64) -> (r: Option<u64>)
    ensures
        r == if full == 0 {
            None::<u64>
        } else {
            Some(spec_percent_of(now as int, full as int))
        },
{
    if full == 0 {
        return None;
    }
    let wide: u128 = (200 * now as u128 + full as u128) / (2 * full as u128);
    if wide > u64::MAX as u128 {
        Some(u64::MAX)
    } else {
        Some(wide as u64)
    }
}

/// Byte counts are shown scaled to the closest unit among B, KB, MB, GB
/// and TB (factors of 1024), with the quotient rounded down.
pub open spec fn bytes_closest(b: int) -> Seq<char> {
    if b < 1024 {
        dec_str(b) + seq!['B']
    } else if b < 1048576 {
        dec_str(b / 1024) + seq!['K', 'B']
    } else if b < 1073741824 {
        dec_str(b / 1048576) + seq!['M', 'B']
    } else if b < 1099511627776 {
        dec_str(b / 1073741824) + seq!['G', 'B']
    } else {
        dec_str(b / 1099511627776) + seq!['T', 'B']
    }
}

/// Renders a byte count scaled to its closest unit.
pub fn bytes_to_closest(b: u64) -> (r: String)
    ensures
        r@ == bytes_closest(b as int),
{
    proof {
        reveal_strlit("B");
        reveal_strlit("KB");
        reveal_strlit("MB");
        reveal_strlit("GB");
        reveal_strlit("TB");
        assert("B"@ =~= seq!['B']);
        assert("KB"@ =~= seq!['K', 'B']);
        assert("MB"@ =~= seq!['M', 'B']);
        assert("GB"@ =~= seq!['G', 'B']);
        assert("TB"@ =~= seq!['T', 'B']);
    }
    if b < 1024 {
        u64_to_string(b).concat("B")
    } else if b < 1048576 {
        u64_to_string(b / 1024).concat("KB")
    } else if b < 1073741824 {
        u64_to_string(b / 1048576).concat("MB")
    } else if b < 1099511627776 {
        u64_to_string(b / 1073741824).concat("GB")
    } else {
        u64_to_string(b / 1099511627776).concat("TB")
    }
}

} // verus!
