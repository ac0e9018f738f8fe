//! The layout pass: one rectangle per widget, the left group packed from
//! the left edge, the right group packed against the right edge; overflow
//! is detected and reported, never silently truncated; clicks are routed
//! back to the widget whose rectangle contains them.

use vstd::prelude::*;
use crate::util::{sat_add, sat_add_u64};

verus! {

/// A horizontal segment of the bar, in display units.
#[derive(Clone, Copy, PartialEq, Eq, Structural, Debug)]
pub struct Rect {
    pub x: u64,
    pub width: u64,
}

/// The span a widget occupies: its content size plus padding on both
/// sides, saturating.
pub open spec fn spec_span(size: int, pad: int) -> int {
    sat_add(size, sat_add(pad, pad))
}

/// Saturating sum of the spans of `entries` (size, padding pairs).
pub open spec fn spans_total(entries: Seq<(u64, u64)>) -> int
    decreases entries.len(),
{
    if entries.len() == 0 {
        0
    } else {
        sat_add(
            spans_total(entries.drop_last()),
            spec_span(entries.last().0 as int, entries.last().1 as int),
        )
    }
}

/// The true (unsaturated) content width of `entries`.
pub open spec fn true_total(entries: Seq<(u64, u64)>) -> int
    decreases entries.len(),
{
    if entries.len() == 0 {
        0
    } else {
        true_total(entries.drop_last()) + entries.last().0 + 2 * entries.last().1
    }
}

/// The position of left-group widget `i`: the spans of the widgets before
/// it, packed from the left edge.
pub open spec fn left_x(entries: Seq<(u64, u64)>, i: int) -> int {
    spans_total(entries.subrange(0, i))
}

/// Where the right group starts: the right widgets end exactly at `avail`,
/// clamped at the left edge when they do not fit.
pub open spec fn right_start(entries: Seq<(u64, u64)>, left_count: int, avail: int) -> int {
    let r = spans_total(entries.subrange(left_count, entries.len() as int));
    if r <= avail {
        avail - r
    } else {
        0
    }
}

/// The position of right-group widget `i` (display order), packed after
/// the group's start.
pub open spec fn right_x(entries: Seq<(u64, u64)>, left_count: int, avail: int, i: int) -> int {
    sat_add(right_start(entries, left_count, avail), spans_total(entries.subrange(left_count, i)))
}

/// Whether the bar's true content width exceeds the available width.
pub open spec fn spec_overflow(entries: Seq<(u64, u64)>, avail: int) -> bool {
    true_total(entries) > avail
}

fn span_of(entry: (u64, u64)) -> (r: u64)
    ensures
        r as int == spec_span(entry.0 as int, entry.1 as int),
{
    sat_add_u64(entry.0, sat_add_u64(entry.1, entry.1))
}

/// Computes one rectangle per widget from (size, padding) pairs: the first
/// `left_count` packed left to right from the left edge, the rest packed so
/// that they end at `avail`. Also reports whether the content overflows
/// the available width.
pub fn compute_layout(entries: &Vec<(u64, u64)>, left_count: usize, avail: u64) -> (r: (
    Vec<Rect>,
    bool,
))
    requires
        left_count <= entries@.len(),
    ensures
        r.0@.len() == entries@.len(),
        forall|i: int|
            0 <= i < entries@.len() ==> (#[trigger] r.0@[i].width) as int == spec_span(
                entries@[i].0 as int,
                entries@[i].1 as int,
            ),
        forall|i: int|
            0 <= i < left_count ==> (#[trigger] r.0@[i].x) as int == left_x(entries@, i),
        forall|i: int|
            left_count <= i < entries@.len() ==> (#[trigger] r.0@[i].x) as int == right_x(
                entries@,
                left_count as int,
                avail as int,
                i,
            ),
        r.1 == spec_overflow(entries@, avail as int),
{
    let n = entries.len();
    let ghost whole = entries@;
    let mut racc: u64 = 0;
    let mut j: usize = left_count;
    proof {
        assert(whole.subrange(left_count as int, left_count as int) =~= Seq::<(u64, u64)>::empty());
    }
    while j < n
        invariant
            left_count <= j <= n,
            n == whole.len(),
            whole == entries@,
            racc as int == spans_total(whole.subrange(left_count as int, j as int)),
        decreases n - j,
    {
        proof {
            assert(whole.subrange(left_count as int, j + 1).drop_last() =~= whole.subrange(
                left_count as int,
                j as int,
            ));
            assert(whole.subrange(left_count as int, j + 1).last() == whole[j as int]);
        }
        let s = span_of(entries[j]);
        racc = sat_add_u64(racc, s);
        j += 1;
    }
    let rstart: u64 = if racc <= avail {
        avail - racc
    } else {
        0
    };
    let mut rects: Vec<Rect> = Vec::new();
    let mut lacc: u64 = 0;
    let mut i: usize = 0;
    proof {
        assert(whole.subrange(0, 0) =~= Seq::<(u64, u64)>::empty());
    }
    while i < left_count
        invariant
            i <= left_count <= n,
            n == whole.len(),
            whole == entries@,
            rects@.len() == i,
            lacc as int == spans_total(whole.subrange(0, i as int)),
            forall|k: int|
                0 <= k < i ==> (#[trigger] rects@[k].width) as int == spec_span(
                    whole[k].0 as int,
                    whole[k].1 as int,
                ),
            forall|k: int| 0 <= k < i ==> (#[trigger] rects@[k].x) as int == left_x(whole, k),
        decreases left_count - i,
    {
        proof {
            assert(whole.subrange(0, i + 1).drop_last() =~= whole.subrange(0, i as int));
            assert(whole.subrange(0, i + 1).last() == whole[i as int]);
        }
        let s = span_of(entries[i]);
        rects.push(Rect { x: lacc, width: s });
        lacc = sat_add_u64(lacc, s);
        i += 1;
    }
    let mut acc2: u64 = 0;
    let mut j2: usize = left_count;
    proof {
        assert(whole.subrange(left_count as int, left_count as int) =~= Seq::<(u64, u64)>::empty());
    }
    while j2 < n
        invariant
            left_count <= j2 <= n,
            n == whole.len(),
            whole == entries@,
            rstart as int == right_start(whole, left_count as int, avail as int),
            rects@.len() == j2,
            acc2 as int == spans_total(whole.subrange(left_count as int, j2 as int)),
            forall|k: int|
                0 <= k < j2 ==> (#[trigger] rects@[k].width) as int == spec_span(
                    whole[k].0 as int,
                    whole[k].1 as int,
                ),
            forall|k: int| 0 <= k < left_count ==> (#[trigger] rects@[k].x) as int == left_x(
                whole,
                k,
            ),
            forall|k: int|
                left_count <= k < j2 ==> (#[trigger] rects@[k].x) as int == right_x(
                    whole,
                    left_count as int,
                    avail as int,
                    k,
                ),
        decreases n - j2,
    {
        proof {
            assert(whole.subrange(left_count as int, j2 + 1).drop_last() =~= whole.subrange(
                left_count as int,
                j2 as int,
            ));
            assert(whole.subrange(left_count as int, j2 + 1).last() == whole[j2 as int]);
        }
        let s = span_of(entries[j2]);
        rects.push(Rect { x: sat_add_u64(rstart, acc2), width: s });
        acc2 = sat_add_u64(acc2, s);
        j2 += 1;
    }
    let mut tacc: u128 = 0;
    let mut k: usize = 0;
    proof {
        assert(whole.subrange(0, 0) =~= Seq::<(u64, u64)>::empty());
    }
    while k < n
        invariant
            k <= n,
            n == whole.len(),
            whole == entries@,
            tacc as int == if true_total(whole.subrange(0, k as int)) > 0x1_0000_0000_0000_0000 {
                0x1_0000_0000_0000_0000int
            } else {
                true_total(whole.subrange(0, k as int))
            },
        decreases n - k,
    {
        proof {
            assert(whole.subrange(0, k + 1).drop_last() =~= whole.subrange(0, k as int));
            assert(whole.subrange(0, k + 1).last() == whole[k as int]);
        }
        let e = entries[k];
        let term: u128 = e.0 as u128 + 2 * e.1 as u128;
        tacc = tacc + term;
        if tacc > 0x1_0000_0000_0000_0000 {
            tacc = 0x1_0000_0000_0000_0000;
        }
        k += 1;
    }
    proof {
        assert(whole.subrange(0, n as int) =~= whole);
    }
    (rects, tacc > avail as u128)
}

/// Whether the horizontal position `x` falls inside `r`.
pub open spec fn rect_contains(r: Rect, x: int) -> bool {
    r.x <= x < r.x + r.width
}

/// Resolves a click's horizontal position to the first widget whose
/// rectangle contains it.
pub fn click_target(rects: &Vec<Rect>, x: u64) -> (r: Option<usize>)
    ensures
        match r {
            Some(i) => i < rects@.len() && rect_contains(rects@[i as int], x as int) && forall|
                k: int,
            | 0 <= k < i ==> !rect_contains(#[trigger] rects@[k], x as int),
            None => forall|k: int|
                0 <= k < rects@.len() ==> !rect_contains(#[trigger] rects@[k], x as int),
        },
{
    let n = rects.len();
    let mut i: usize = 0;
    while i < n
        invariant
            i <= n,
            n == rects@.len(),
            forall|k: int| 0 <= k < i ==> !rect_contains(#[trigger] rects@[k], x as int),
        decreases n - i,
    {
        let rc = rects[i];
        if rc.x <= x && x - rc.x < rc.width {
            return Some(i);
        }
        i += 1;
    }
    None
}

} // verus!
