//! CSS alignment decisions shared by the Flexbox and CSS Grid algorithms.
//!
//! Lengths are floating-point values in layout; the decisions here take what they depend on from
//! those lengths as plain values (the sign of the free space) and leave the arithmetic on lengths
//! to the caller, who applies the [`ContentOffset`] that is chosen.
use vstd::prelude::*;

use crate::style::alignment::{AlignContent, AlignSelf, JustifyContent, JustifySelf};

verus! {

/// How the offset placed before an item of a line is obtained from the line's free space
/// (`free_space`) and the gap between items (`gap`).
#[derive(Copy, Clone, PartialEq, Eq, Debug, Structural)]
pub enum ContentOffset {
    /// No offset: `0`.
    Zero,
    /// All the free space: `free_space`.
    FreeSpace,
    /// Half the free space: `free_space / 2`.
    HalfFreeSpace,
    /// Half of one of `n` equal shares of the free space: `(free_space / n) / 2`.
    HalfShare(usize),
    /// One of `n` equal shares of the free space: `free_space / n`.
    Share(usize),
    /// Only the gap: `gap + 0`.
    Gap,
    /// The gap and one of `n` equal shares of the free space, counted as zero where negative:
    /// `gap + max(free_space, 0) / n`.
    GapAndShare(usize),
}

/// An exact rational number `num / den`.
pub struct Ratio {
    pub num: int,
    pub den: int,
}

/// `a + b`.
pub open spec fn ratio_add(a: Ratio, b: Ratio) -> Ratio {
    Ratio { num: a.num * b.den + b.num * a.den, den: a.den * b.den }
}

/// `k * a`.
pub open spec fn ratio_scale(k: int, a: Ratio) -> Ratio {
    Ratio { num: k * a.num, den: a.den }
}

/// Whether `a` and `b` are the same number (both denominators non-zero).
pub open spec fn ratio_eq(a: Ratio, b: Ratio) -> bool {
    a.den != 0 && b.den != 0 && a.num * b.den == b.num * a.den
}

/// The whole number `n`.
pub open spec fn ratio_of(n: int) -> Ratio {
    Ratio { num: n, den: 1 }
}

/// The length that `offset` stands for, in exact arithmetic, given the line's free space and the
/// gap between items.
pub open spec fn offset_length(offset: ContentOffset, free_space: int, gap: int) -> Ratio {
    match offset {
        ContentOffset::Zero => ratio_of(0),
        ContentOffset::FreeSpace => ratio_of(free_space),
        ContentOffset::HalfFreeSpace => Ratio { num: free_space, den: 2 },
        ContentOffset::HalfShare(n) => Ratio { num: free_space, den: 2 * n },
        ContentOffset::Share(n) => Ratio { num: free_space, den: n as int },
        ContentOffset::Gap => ratio_of(gap),
        ContentOffset::GapAndShare(n) => ratio_add(
            ratio_of(gap),
            Ratio { num: if free_space >= 0 { free_space } else { 0 }, den: n as int },
        ),
    }
}

proof fn lemma_distribution_between(f: int, n: int)
    requires
        n >= 2,
    ensures
        ((n - 1) * f) * 1 == f * (n - 1),
{
    assert(((n - 1) * f) * 1 == f * (n - 1)) by (nonlinear_arith);
}

proof fn lemma_distribution_around(f: int, n: int)
    requires
        n >= 2,
    ensures
        (f * n + ((n - 1) * f) * (2 * n)) * (2 * n) + f * ((2 * n) * n) == f * (((2 * n) * n) * (2 * n)),
        (2 * f) * n == f * (2 * n),
        (2 * n) * n != 0,
        ((2 * n) * n) * (2 * n) != 0,
{
    assert((f * n + ((n - 1) * f) * (2 * n)) * (2 * n) + f * ((2 * n) * n) == f * (((2 * n) * n) * (2 * n)))
        by (nonlinear_arith);
    assert((2 * f) * n == f * (2 * n)) by (nonlinear_arith);
    assert((2 * n) * n != 0 && ((2 * n) * n) * (2 * n) != 0) by (nonlinear_arith)
        requires
            n >= 2,
    ;
}

proof fn lemma_distribution_evenly(f: int, n: int)
    requires
        n >= 2,
    ensures
        (f * (n + 1) + ((n - 1) * f) * (n + 1)) * (n + 1) + f * ((n + 1) * (n + 1)) == f * (((n + 1) * (n + 1)) * (n + 1)),
        (n + 1) * (n + 1) != 0,
        ((n + 1) * (n + 1)) * (n + 1) != 0,
{
    assert((f * (n + 1) + ((n - 1) * f) * (n + 1)) * (n + 1) + f * ((n + 1) * (n + 1)) == f * (((n + 1) * (n + 1)) * (n + 1)))
        by (nonlinear_arith);
    assert((n + 1) * (n + 1) != 0 && ((n + 1) * (n + 1)) * (n + 1) != 0) by (nonlinear_arith)
        requires
            n >= 2,
    ;
}

/// The self-level alignment that is used: `start` where a `safe` value overflows, the value
/// without its `safe` modifier otherwise.
pub open spec fn resolve_align_self_safety_spec(alignment: AlignSelf, overflows: bool) -> AlignSelf {
    if alignment.is_safe() && overflows { AlignSelf::Start } else { alignment.unsafe_variant() }
}

/// Resolve the `safe`/`unsafe` overflow-position fallback for a self-level alignment value
/// (used by `align-self`-style sites and by absolutely-positioned items in flex/grid). If the
/// alignment subject overflows its alignment container and the requested alignment is `safe`,
/// fall back to logical `Start` (CSS Box Alignment, overflow positions). Otherwise drop the
/// safety modifier and return the bare keyword.
#[verifier::when_used_as_spec(resolve_align_self_safety_spec)]
pub fn resolve_align_self_safety(alignment: AlignSelf, overflows: bool) -> (r: AlignSelf)
    ensures
        r == resolve_align_self_safety_spec(alignment, overflows),
{
    if alignment.is_safe() && overflows {
        AlignSelf::START
    } else {
        alignment.unsafe_variant()
    }
}

/// The resolved value never carries the `safe` modifier, and without overflow it is the value
/// with the modifier removed.
pub proof fn resolve_align_self_safety_drops_the_modifier(alignment: AlignSelf, overflows: bool)
    ensures
        !resolve_align_self_safety(alignment, overflows).is_safe(),
        !overflows ==> resolve_align_self_safety(alignment, overflows) == alignment.unsafe_variant(),
{
}

/// A `safe` value that overflows falls back to `start`, whatever its keyword; a value without
/// `safe` is kept as it is, overflowing or not.
pub proof fn resolve_align_self_safety_falls_back_to_start(alignment: AlignSelf, overflows: bool)
    ensures
        (alignment.is_safe() && overflows) ==> resolve_align_self_safety(alignment, overflows) == AlignSelf::Start,
        !alignment.is_safe() ==> resolve_align_self_safety(alignment, overflows) == alignment,
{
}

/// The self-level alignment that is used: `start` where a `safe` value overflows, the value
/// without its `safe` modifier otherwise.
pub open spec fn resolve_justify_self_safety_spec(alignment: JustifySelf, overflows: bool) -> JustifySelf {
    if alignment.is_safe() && overflows { JustifySelf::Start } else { alignment.unsafe_variant() }
}

/// Resolve the `safe`/`unsafe` overflow-position fallback for a self-level alignment value
/// (used by `justify-self`-style sites and by absolutely-positioned items in flex/grid). If the
/// alignment subject overflows its alignment container and the requested alignment is `safe`,
/// fall back to logical `Start` (CSS Box Alignment, overflow positions). Otherwise drop the
/// safety modifier and return the bare keyword.
#[verifier::when_used_as_spec(resolve_justify_self_safety_spec)]
pub fn resolve_justify_self_safety(alignment: JustifySelf, overflows: bool) -> (r: JustifySelf)
    ensures
        r == resolve_justify_self_safety_spec(alignment, overflows),
{
    if alignment.is_safe() && overflows {
        JustifySelf::START
    } else {
        alignment.unsafe_variant()
    }
}

/// The resolved value never carries the `safe` modifier, and without overflow it is the value
/// with the modifier removed.
pub proof fn resolve_justify_self_safety_drops_the_modifier(alignment: JustifySelf, overflows: bool)
    ensures
        !resolve_justify_self_safety(alignment, overflows).is_safe(),
        !overflows ==> resolve_justify_self_safety(alignment, overflows) == alignment.unsafe_variant(),
{
}

/// A `safe` value that overflows falls back to `start`, whatever its keyword; a value without
/// `safe` is kept as it is, overflowing or not.
pub proof fn resolve_justify_self_safety_falls_back_to_start(alignment: JustifySelf, overflows: bool)
    ensures
        (alignment.is_safe() && overflows) ==> resolve_justify_self_safety(alignment, overflows) == JustifySelf::Start,
        !alignment.is_safe() ==> resolve_justify_self_safety(alignment, overflows) == alignment,
{
}

/// Whether `mode` is a distributed alignment keyword (`stretch` or `space-*`).
pub open spec fn align_content_is_distributed(mode: AlignContent) -> bool {
    match mode {
        AlignContent::Stretch | AlignContent::SpaceBetween | AlignContent::SpaceAround | AlignContent::SpaceEvenly => true,
        _ => false,
    }
}

/// Whether `mode` can be used to place content: neither `normal` nor carrying `safe`.
pub open spec fn align_content_is_resolved(mode: AlignContent) -> bool {
    mode != AlignContent::Normal && !mode.is_safe()
}

/// The positional keyword that a distributed keyword falls back to: `flex-start` for `stretch`
/// and `space-between`, `center` for `space-around` and `space-evenly`.
pub open spec fn align_content_distributed_fallback(mode: AlignContent) -> Option<AlignContent> {
    match mode {
        AlignContent::Stretch | AlignContent::SpaceBetween => Some(AlignContent::FlexStart),
        AlignContent::SpaceAround | AlignContent::SpaceEvenly => Some(AlignContent::Center),
        _ => None,
    }
}

/// The `align-content` value that is used after the spec-defined fallbacks, where `no_free_space`
/// says that the free space is zero or negative.
///
/// 1. With at most one item, or without free space, a distributed keyword falls back to its
///    positional keyword and becomes `safe`.
/// 2. A `safe` alignment falls back to `start` where there is no free space.
pub open spec fn apply_align_content_fallback_spec(no_free_space: bool, num_items: usize, mode: AlignContent) -> AlignContent {
    let bare = mode.unsafe_variant();
    let falls_back = (num_items <= 1 || no_free_space) && align_content_distributed_fallback(bare) is Some;
    let alignment = if falls_back { align_content_distributed_fallback(bare)->0 } else { bare };
    let is_safe = if falls_back { true } else { mode.is_safe() };
    if no_free_space && is_safe { AlignContent::Start } else { alignment }
}

/// Resolve spec-defined distribution and overflow fallbacks for `align-content`; `no_free_space` is
/// whether the free space is zero or negative.
pub fn apply_align_content_fallback(no_free_space: bool, num_items: usize, alignment_mode: AlignContent) -> (r: AlignContent)
    ensures
        r == apply_align_content_fallback_spec(no_free_space, num_items, alignment_mode),
{
    let mut alignment = alignment_mode.unsafe_variant();
    let mut is_safe = alignment_mode.is_safe();

    // 1. A single item, or items that overflow the container, turn the distributed keywords
    //    into positional ones with implicit `safe` semantics.
    if num_items <= 1 || no_free_space {
        let (fallback, fallback_is_safe) = match alignment {
            AlignContent::Stretch | AlignContent::SpaceBetween => (AlignContent::FLEX_START, true),
            AlignContent::SpaceAround | AlignContent::SpaceEvenly => (AlignContent::CENTER, true),
            other => (other, is_safe),
        };
        alignment = fallback;
        is_safe = fallback_is_safe;
    }

    // 2. Safe alignment falls back to `start` whenever the content would overflow.
    if no_free_space && is_safe {
        AlignContent::START
    } else {
        alignment
    }
}

/// After the fallbacks no value carries `safe`; with at most one item or without free space no
/// distributed keyword is left; without free space a `safe` or distributed value becomes
/// `start`; with free space and several items only the modifier is dropped; and applying the
/// fallbacks again changes nothing.
pub proof fn apply_align_content_fallback_laws(no_free_space: bool, num_items: usize, mode: AlignContent)
    ensures
        !apply_align_content_fallback_spec(no_free_space, num_items, mode).is_safe(),
        (num_items <= 1 || no_free_space) ==> !align_content_is_distributed(apply_align_content_fallback_spec(no_free_space, num_items, mode)),
        (no_free_space && (mode.is_safe() || align_content_is_distributed(mode))) ==> apply_align_content_fallback_spec(no_free_space, num_items, mode) == AlignContent::Start,
        (!no_free_space && num_items > 1) ==> apply_align_content_fallback_spec(no_free_space, num_items, mode) == mode.unsafe_variant(),
        apply_align_content_fallback_spec(no_free_space, num_items, apply_align_content_fallback_spec(no_free_space, num_items, mode))
            == apply_align_content_fallback_spec(no_free_space, num_items, mode),
{
}

/// The fallbacks case by case: with at most one item and free space, `stretch` and
/// `space-between` become `flex-start` and `space-around` and `space-evenly` become `center`;
/// without free space, a `safe` or distributed value becomes `start` and any other value is
/// kept; with free space, a positional value only loses its `safe` modifier.
pub proof fn apply_align_content_fallback_by_case(no_free_space: bool, num_items: usize, mode: AlignContent)
    ensures
        (num_items <= 1 && !no_free_space && (mode.unsafe_variant() == AlignContent::Stretch || mode.unsafe_variant() == AlignContent::SpaceBetween))
            ==> apply_align_content_fallback_spec(no_free_space, num_items, mode) == AlignContent::FlexStart,
        (num_items <= 1 && !no_free_space && (mode.unsafe_variant() == AlignContent::SpaceAround || mode.unsafe_variant() == AlignContent::SpaceEvenly))
            ==> apply_align_content_fallback_spec(no_free_space, num_items, mode) == AlignContent::Center,
        (no_free_space && (mode.is_safe() || mode == AlignContent::Stretch || mode == AlignContent::SpaceBetween || mode == AlignContent::SpaceAround
            || mode == AlignContent::SpaceEvenly)) ==> apply_align_content_fallback_spec(no_free_space, num_items, mode) == AlignContent::Start,
        (no_free_space && !mode.is_safe() && mode != AlignContent::Stretch && mode != AlignContent::SpaceBetween && mode != AlignContent::SpaceAround
            && mode != AlignContent::SpaceEvenly) ==> apply_align_content_fallback_spec(no_free_space, num_items, mode) == mode,
        (!no_free_space && mode.unsafe_variant() != AlignContent::Stretch && mode.unsafe_variant() != AlignContent::SpaceBetween
            && mode.unsafe_variant() != AlignContent::SpaceAround && mode.unsafe_variant() != AlignContent::SpaceEvenly)
            ==> apply_align_content_fallback_spec(no_free_space, num_items, mode) == mode.unsafe_variant(),
{
}

/// The offset before the first item, as a length: `start` puts it at the start, `end` puts all
/// the free space before it, `center` splits the free space equally before the first item and
/// after the last, `flex-start` and `flex-end` follow `start` and `end` and trade places under
/// flex reversal, `stretch` and `space-between` start at the start, and without free space
/// `space-around` and `space-evenly` center the content.
pub proof fn align_content_first_offset_places_the_content(num_items: usize, layout_is_flex_reversed: bool, free_space_is_nonnegative: bool, free_space: int, gap: int)
    ensures
        ratio_eq(offset_length(align_content_offset_spec(num_items, AlignContent::Start, layout_is_flex_reversed, true, free_space_is_nonnegative), free_space, gap), ratio_of(0)),
        ratio_eq(offset_length(align_content_offset_spec(num_items, AlignContent::End, layout_is_flex_reversed, true, free_space_is_nonnegative), free_space, gap), ratio_of(free_space)),
        ratio_eq(ratio_scale(2, offset_length(align_content_offset_spec(num_items, AlignContent::Center, layout_is_flex_reversed, true, free_space_is_nonnegative), free_space, gap)), ratio_of(free_space)),
        ratio_eq(offset_length(align_content_offset_spec(num_items, AlignContent::FlexStart, layout_is_flex_reversed, true, free_space_is_nonnegative), free_space, gap),
            if layout_is_flex_reversed { ratio_of(free_space) } else { ratio_of(0) }),
        ratio_eq(offset_length(align_content_offset_spec(num_items, AlignContent::FlexEnd, layout_is_flex_reversed, true, free_space_is_nonnegative), free_space, gap),
            if layout_is_flex_reversed { ratio_of(0) } else { ratio_of(free_space) }),
        ratio_eq(offset_length(align_content_offset_spec(num_items, AlignContent::Stretch, layout_is_flex_reversed, true, free_space_is_nonnegative), free_space, gap), ratio_of(0)),
        ratio_eq(offset_length(align_content_offset_spec(num_items, AlignContent::SpaceBetween, layout_is_flex_reversed, true, free_space_is_nonnegative), free_space, gap), ratio_of(0)),
        !free_space_is_nonnegative ==> ratio_eq(ratio_scale(2, offset_length(align_content_offset_spec(num_items, AlignContent::SpaceAround, layout_is_flex_reversed, true, free_space_is_nonnegative), free_space, gap)), ratio_of(free_space)),
        !free_space_is_nonnegative ==> ratio_eq(ratio_scale(2, offset_length(align_content_offset_spec(num_items, AlignContent::SpaceEvenly, layout_is_flex_reversed, true, free_space_is_nonnegative), free_space, gap)), ratio_of(free_space)),
{
}

/// The offset before every item after the first, as a length: under a positional keyword or
/// `stretch` it is only the gap; under a distributed keyword it is the gap plus a share of the
/// free space that does not depend on the gap, and that share is nothing where there is no
/// free space.
pub proof fn align_content_later_offsets_are_the_gap_and_a_share(num_items: usize, mode: AlignContent, layout_is_flex_reversed: bool, free_space_is_nonnegative: bool, free_space: int, gap: int)
    ensures
        (mode == AlignContent::Start || mode == AlignContent::End || mode == AlignContent::FlexStart || mode == AlignContent::FlexEnd || mode == AlignContent::Center || mode == AlignContent::Stretch)
            ==> ratio_eq(offset_length(align_content_offset_spec(num_items, mode, layout_is_flex_reversed, false, free_space_is_nonnegative), free_space, gap), ratio_of(gap)),
        (2 <= num_items < usize::MAX && (mode == AlignContent::SpaceBetween || mode == AlignContent::SpaceAround || mode == AlignContent::SpaceEvenly))
            ==> ratio_eq(offset_length(align_content_offset_spec(num_items, mode, layout_is_flex_reversed, false, free_space_is_nonnegative), free_space, gap),
                ratio_add(ratio_of(gap), offset_length(align_content_offset_spec(num_items, mode, layout_is_flex_reversed, false, free_space_is_nonnegative), free_space, 0))),
        (2 <= num_items < usize::MAX && free_space <= 0 && (mode == AlignContent::SpaceBetween || mode == AlignContent::SpaceAround || mode == AlignContent::SpaceEvenly))
            ==> ratio_eq(offset_length(align_content_offset_spec(num_items, mode, layout_is_flex_reversed, false, free_space_is_nonnegative), free_space, gap), ratio_of(gap)),
{
}

/// Whether the offset for `mode` can be computed: the mode is resolved, and the item counts that
/// the chosen rule adds to or subtracts from stay within `usize`.
pub open spec fn align_content_offset_is_defined(num_items: usize, mode: AlignContent, is_first: bool, free_space_is_nonnegative: bool) -> bool {
    &&& align_content_is_resolved(mode)
    &&& (!is_first && mode == AlignContent::SpaceBetween) ==> num_items >= 1
    &&& (mode == AlignContent::SpaceEvenly && (!is_first || free_space_is_nonnegative)) ==> num_items < usize::MAX
}

/// The rule for the offset before an item under `align-content`: the first item of a line is placed
/// according to the keyword; every later item follows the gap and its share of the free space.
pub open spec fn align_content_offset_spec(
    num_items: usize,
    mode: AlignContent,
    layout_is_flex_reversed: bool,
    is_first: bool,
    free_space_is_nonnegative: bool,
) -> ContentOffset {
    if is_first {
        match mode {
            AlignContent::Start => ContentOffset::Zero,
            AlignContent::FlexStart => if layout_is_flex_reversed { ContentOffset::FreeSpace } else { ContentOffset::Zero },
            AlignContent::End => ContentOffset::FreeSpace,
            AlignContent::FlexEnd => if layout_is_flex_reversed { ContentOffset::Zero } else { ContentOffset::FreeSpace },
            AlignContent::Center => ContentOffset::HalfFreeSpace,
            AlignContent::SpaceAround => if free_space_is_nonnegative { ContentOffset::HalfShare(num_items) } else { ContentOffset::HalfFreeSpace },
            AlignContent::SpaceEvenly => if free_space_is_nonnegative { ContentOffset::Share((num_items + 1) as usize) } else { ContentOffset::HalfFreeSpace },
            _ => ContentOffset::Zero,
        }
    } else {
        match mode {
            AlignContent::SpaceBetween => ContentOffset::GapAndShare((num_items - 1) as usize),
            AlignContent::SpaceAround => ContentOffset::GapAndShare(num_items),
            AlignContent::SpaceEvenly => ContentOffset::GapAndShare((num_items + 1) as usize),
            _ => ContentOffset::Gap,
        }
    }
}

/// Compute how the `align-content` offset before an item is obtained from the free space and the gap.
///
/// `free_space_is_nonnegative` is whether the free space is zero or more. CSS Grid does not
/// apply gaps as part of alignment, so its gap is zero.
pub fn align_content_offset(
    num_items: usize,
    alignment_mode: AlignContent,
    layout_is_flex_reversed: bool,
    is_first: bool,
    free_space_is_nonnegative: bool,
) -> (r: ContentOffset)
    requires
        align_content_offset_is_defined(num_items, alignment_mode, is_first, free_space_is_nonnegative),
    ensures
        r == align_content_offset_spec(num_items, alignment_mode, layout_is_flex_reversed, is_first, free_space_is_nonnegative),
{
    if is_first {
        match alignment_mode {
            AlignContent::Start => ContentOffset::Zero,
            AlignContent::FlexStart => {
                if layout_is_flex_reversed {
                    ContentOffset::FreeSpace
                } else {
                    ContentOffset::Zero
                }
            },
            AlignContent::End => ContentOffset::FreeSpace,
            AlignContent::FlexEnd => {
                if layout_is_flex_reversed {
                    ContentOffset::Zero
                } else {
                    ContentOffset::FreeSpace
                }
            },
            AlignContent::Center => ContentOffset::HalfFreeSpace,
            AlignContent::Stretch | AlignContent::SpaceBetween => ContentOffset::Zero,
            AlignContent::SpaceAround => {
                if free_space_is_nonnegative {
                    ContentOffset::HalfShare(num_items)
                } else {
                    ContentOffset::HalfFreeSpace
                }
            },
            AlignContent::SpaceEvenly => {
                if free_space_is_nonnegative {
                    ContentOffset::Share(num_items + 1)
                } else {
                    ContentOffset::HalfFreeSpace
                }
            },
            AlignContent::Normal
            | AlignContent::SafeStart
            | AlignContent::SafeEnd
            | AlignContent::SafeFlexStart
            | AlignContent::SafeFlexEnd
            | AlignContent::SafeCenter => ContentOffset::Zero,
        }
    } else {
        match alignment_mode {
            AlignContent::Start
            | AlignContent::FlexStart
            | AlignContent::End
            | AlignContent::FlexEnd
            | AlignContent::Center
            | AlignContent::Stretch => ContentOffset::Gap,
            AlignContent::SpaceBetween => ContentOffset::GapAndShare(num_items - 1),
            AlignContent::SpaceAround => ContentOffset::GapAndShare(num_items),
            AlignContent::SpaceEvenly => ContentOffset::GapAndShare(num_items + 1),
            AlignContent::Normal
            | AlignContent::SafeStart
            | AlignContent::SafeEnd
            | AlignContent::SafeFlexStart
            | AlignContent::SafeFlexEnd
            | AlignContent::SafeCenter => ContentOffset::Gap,
        }
    }
}

/// The distributed keywords share out the free space as the CSS alignment module describes.
/// With `n` items, a free space `f >= 0` and no gap, the offset before the first item, the
/// `n - 1` offsets between items and the space after the last item add up to `f`; under
/// `space-between` the first and last items are flush with the edges, under `space-evenly` all
/// the gaps are equal, and under `space-around` the outer gaps are half the inner ones.
pub proof fn align_content_distributes_free_space(num_items: usize, mode: AlignContent, layout_is_flex_reversed: bool, free_space: int)
    requires
        free_space >= 0,
        2 <= num_items < usize::MAX,
        mode == AlignContent::SpaceBetween || mode == AlignContent::SpaceAround || mode == AlignContent::SpaceEvenly,
    ensures
        ({
            let first = offset_length(align_content_offset_spec(num_items, mode, layout_is_flex_reversed, true, true), free_space, 0);
            let between = offset_length(align_content_offset_spec(num_items, mode, layout_is_flex_reversed, false, true), free_space, 0);
            let last = if mode == AlignContent::SpaceBetween { ratio_of(0) } else { first };
            &&& ratio_eq(ratio_add(ratio_add(first, ratio_scale(num_items - 1, between)), last), ratio_of(free_space))
            &&& mode == AlignContent::SpaceBetween ==> ratio_eq(first, ratio_of(0))
            &&& mode == AlignContent::SpaceEvenly ==> ratio_eq(first, between)
            &&& mode == AlignContent::SpaceAround ==> ratio_eq(ratio_scale(2, first), between)
        }),
{
    let n = num_items as int;
    let f = free_space;
    let first = offset_length(align_content_offset_spec(num_items, mode, layout_is_flex_reversed, true, true), f, 0);
    let between = offset_length(align_content_offset_spec(num_items, mode, layout_is_flex_reversed, false, true), f, 0);
    let last = if mode == AlignContent::SpaceBetween { ratio_of(0) } else { first };
    let inner = ratio_add(first, ratio_scale(n - 1, between));
    let total = ratio_add(inner, last);
    if mode == AlignContent::SpaceBetween {
        assert(first.num == 0 && first.den == 1);
        assert(between.num == f && between.den == n - 1);
        assert(inner.num == (n - 1) * f && inner.den == n - 1);
        assert(total.num == (n - 1) * f && total.den == n - 1);
        lemma_distribution_between(f, n);
    } else if mode == AlignContent::SpaceAround {
        assert(first.num == f && first.den == 2 * n);
        assert(between.num == f && between.den == n);
        assert(inner.num == f * n + ((n - 1) * f) * (2 * n) && inner.den == (2 * n) * n);
        assert(total.num == (f * n + ((n - 1) * f) * (2 * n)) * (2 * n) + f * ((2 * n) * n));
        assert(total.den == ((2 * n) * n) * (2 * n));
        lemma_distribution_around(f, n);
    } else {
        assert(first.num == f && first.den == n + 1);
        assert(between.num == f && between.den == n + 1);
        assert(inner.num == f * (n + 1) + ((n - 1) * f) * (n + 1) && inner.den == (n + 1) * (n + 1));
        assert(total.num == (f * (n + 1) + ((n - 1) * f) * (n + 1)) * (n + 1) + f * ((n + 1) * (n + 1)));
        assert(total.den == ((n + 1) * (n + 1)) * (n + 1));
        lemma_distribution_evenly(f, n);
    }
}

/// Flex reversal swaps `flex-start` and `flex-end` for the first item and changes nothing else;
/// every item after the first is offset by the gap plus a share of the non-negative free space,
/// whatever the first item's rule; and the first item under `stretch` or `space-between` sits
/// at the start.
pub proof fn align_content_offset_laws(num_items: usize, mode: AlignContent, layout_is_flex_reversed: bool, free_space_is_nonnegative: bool)
    ensures
        align_content_offset_spec(num_items, AlignContent::FlexStart, layout_is_flex_reversed, true, free_space_is_nonnegative)
            == align_content_offset_spec(num_items, AlignContent::FlexEnd, !layout_is_flex_reversed, true, free_space_is_nonnegative),
        (align_content_is_resolved(mode) && mode != AlignContent::FlexStart && mode != AlignContent::FlexEnd) ==>
            align_content_offset_spec(num_items, mode, layout_is_flex_reversed, true, free_space_is_nonnegative)
            == align_content_offset_spec(num_items, mode, !layout_is_flex_reversed, true, free_space_is_nonnegative),
        align_content_offset_spec(num_items, mode, layout_is_flex_reversed, false, free_space_is_nonnegative)
            == align_content_offset_spec(num_items, mode, !layout_is_flex_reversed, false, !free_space_is_nonnegative),
        align_content_offset_spec(num_items, mode, layout_is_flex_reversed, false, free_space_is_nonnegative) is Gap
            || align_content_offset_spec(num_items, mode, layout_is_flex_reversed, false, free_space_is_nonnegative) is GapAndShare,
        (mode == AlignContent::Stretch || mode == AlignContent::SpaceBetween) ==>
            align_content_offset_spec(num_items, mode, layout_is_flex_reversed, true, free_space_is_nonnegative) == ContentOffset::Zero,
{
}

/// Whether `mode` is a distributed alignment keyword (`stretch` or `space-*`).
pub open spec fn justify_content_is_distributed(mode: JustifyContent) -> bool {
    match mode {
        JustifyContent::Stretch | JustifyContent::SpaceBetween | JustifyContent::SpaceAround | JustifyContent::SpaceEvenly => true,
        _ => false,
    }
}

/// Whether `mode` can be used to place content: neither `normal` nor carrying `safe`.
pub open spec fn justify_content_is_resolved(mode: JustifyContent) -> bool {
    mode != JustifyContent::Normal && !mode.is_safe()
}

/// The positional keyword that a distributed keyword falls back to: `flex-start` for `stretch`
/// and `space-between`, `center` for `space-around` and `space-evenly`.
pub open spec fn justify_content_distributed_fallback(mode: JustifyContent) -> Option<JustifyContent> {
    match mode {
        JustifyContent::Stretch | JustifyContent::SpaceBetween => Some(JustifyContent::FlexStart),
        JustifyContent::SpaceAround | JustifyContent::SpaceEvenly => Some(JustifyContent::Center),
        _ => None,
    }
}

/// The `justify-content` value that is used after the spec-defined fallbacks, where `no_free_space`
/// says that the free space is zero or negative.
///
/// 1. With at most one item, or without free space, a distributed keyword falls back to its
///    positional keyword and becomes `safe`.
/// 2. A `safe` alignment falls back to `start` where there is no free space.
pub open spec fn apply_justify_content_fallback_spec(no_free_space: bool, num_items: usize, mode: JustifyContent) -> JustifyContent {
    let bare = mode.unsafe_variant();
    let falls_back = (num_items <= 1 || no_free_space) && justify_content_distributed_fallback(bare) is Some;
    let alignment = if falls_back { justify_content_distributed_fallback(bare)->0 } else { bare };
    let is_safe = if falls_back { true } else { mode.is_safe() };
    if no_free_space && is_safe { JustifyContent::Start } else { alignment }
}

/// Resolve spec-defined distribution and overflow fallbacks for `justify-content`; `no_free_space` is
/// whether the free space is zero or negative.
pub fn apply_justify_content_fallback(no_free_space: bool, num_items: usize, alignment_mode: JustifyContent) -> (r: JustifyContent)
    ensures
        r == apply_justify_content_fallback_spec(no_free_space, num_items, alignment_mode),
{
    let mut alignment = alignment_mode.unsafe_variant();
    let mut is_safe = alignment_mode.is_safe();

    // 1. A single item, or items that overflow the container, turn the distributed keywords
    //    into positional ones with implicit `safe` semantics.
    if num_items <= 1 || no_free_space {
        let (fallback, fallback_is_safe) = match alignment {
            JustifyContent::Stretch | JustifyContent::SpaceBetween => (JustifyContent::FLEX_START, true),
            JustifyContent::SpaceAround | JustifyContent::SpaceEvenly => (JustifyContent::CENTER, true),
            other => (other, is_safe),
        };
        alignment = fallback;
        is_safe = fallback_is_safe;
    }

    // 2. Safe alignment falls back to `start` whenever the content would overflow.
    if no_free_space && is_safe {
        JustifyContent::START
    } else {
        alignment
    }
}

/// After the fallbacks no value carries `safe`; with at most one item or without free space no
/// distributed keyword is left; without free space a `safe` or distributed value becomes
/// `start`; with free space and several items only the modifier is dropped; and applying the
/// fallbacks again changes nothing.
pub proof fn apply_justify_content_fallback_laws(no_free_space: bool, num_items: usize, mode: JustifyContent)
    ensures
        !apply_justify_content_fallback_spec(no_free_space, num_items, mode).is_safe(),
        (num_items <= 1 || no_free_space) ==> !justify_content_is_distributed(apply_justify_content_fallback_spec(no_free_space, num_items, mode)),
        (no_free_space && (mode.is_safe() || justify_content_is_distributed(mode))) ==> apply_justify_content_fallback_spec(no_free_space, num_items, mode) == JustifyContent::Start,
        (!no_free_space && num_items > 1) ==> apply_justify_content_fallback_spec(no_free_space, num_items, mode) == mode.unsafe_variant(),
        apply_justify_content_fallback_spec(no_free_space, num_items, apply_justify_content_fallback_spec(no_free_space, num_items, mode))
            == apply_justify_content_fallback_spec(no_free_space, num_items, mode),
{
}

/// The fallbacks case by case: with at most one item and free space, `stretch` and
/// `space-between` become `flex-start` and `space-around` and `space-evenly` become `center`;
/// without free space, a `safe` or distributed value becomes `start` and any other value is
/// kept; with free space, a positional value only loses its `safe` modifier.
pub proof fn apply_justify_content_fallback_by_case(no_free_space: bool, num_items: usize, mode: JustifyContent)
    ensures
        (num_items <= 1 && !no_free_space && (mode.unsafe_variant() == JustifyContent::Stretch || mode.unsafe_variant() == JustifyContent::SpaceBetween))
            ==> apply_justify_content_fallback_spec(no_free_space, num_items, mode) == JustifyContent::FlexStart,
        (num_items <= 1 && !no_free_space && (mode.unsafe_variant() == JustifyContent::SpaceAround || mode.unsafe_variant() == JustifyContent::SpaceEvenly))
            ==> apply_justify_content_fallback_spec(no_free_space, num_items, mode) == JustifyContent::Center,
        (no_free_space && (mode.is_safe() || mode == JustifyContent::Stretch || mode == JustifyContent::SpaceBetween || mode == JustifyContent::SpaceAround
            || mode == JustifyContent::SpaceEvenly)) ==> apply_justify_content_fallback_spec(no_free_space, num_items, mode) == JustifyContent::Start,
        (no_free_space && !mode.is_safe() && mode != JustifyContent::Stretch && mode != JustifyContent::SpaceBetween && mode != JustifyContent::SpaceAround
            && mode != JustifyContent::SpaceEvenly) ==> apply_justify_content_fallback_spec(no_free_space, num_items, mode) == mode,
        (!no_free_space && mode.unsafe_variant() != JustifyContent::Stretch && mode.unsafe_variant() != JustifyContent::SpaceBetween
            && mode.unsafe_variant() != JustifyContent::SpaceAround && mode.unsafe_variant() != JustifyContent::SpaceEvenly)
            ==> apply_justify_content_fallback_spec(no_free_space, num_items, mode) == mode.unsafe_variant(),
{
}

/// The offset before the first item, as a length: `start` puts it at the start, `end` puts all
/// the free space before it, `center` splits the free space equally before the first item and
/// after the last, `flex-start` and `flex-end` follow `start` and `end` and trade places under
/// flex reversal, `stretch` and `space-between` start at the start, and without free space
/// `space-around` and `space-evenly` center the content.
pub proof fn justify_content_first_offset_places_the_content(num_items: usize, layout_is_flex_reversed: bool, free_space_is_nonnegative: bool, free_space: int, gap: int)
    ensures
        ratio_eq(offset_length(justify_content_offset_spec(num_items, JustifyContent::Start, layout_is_flex_reversed, true, free_space_is_nonnegative), free_space, gap), ratio_of(0)),
        ratio_eq(offset_length(justify_content_offset_spec(num_items, JustifyContent::End, layout_is_flex_reversed, true, free_space_is_nonnegative), free_space, gap), ratio_of(free_space)),
        ratio_eq(ratio_scale(2, offset_length(justify_content_offset_spec(num_items, JustifyContent::Center, layout_is_flex_reversed, true, free_space_is_nonnegative), free_space, gap)), ratio_of(free_space)),
        ratio_eq(offset_length(justify_content_offset_spec(num_items, JustifyContent::FlexStart, layout_is_flex_reversed, true, free_space_is_nonnegative), free_space, gap),
            if layout_is_flex_reversed { ratio_of(free_space) } else { ratio_of(0) }),
        ratio_eq(offset_length(justify_content_offset_spec(num_items, JustifyContent::FlexEnd, layout_is_flex_reversed, true, free_space_is_nonnegative), free_space, gap),
            if layout_is_flex_reversed { ratio_of(0) } else { ratio_of(free_space) }),
        ratio_eq(offset_length(justify_content_offset_spec(num_items, JustifyContent::Stretch, layout_is_flex_reversed, true, free_space_is_nonnegative), free_space, gap), ratio_of(0)),
        ratio_eq(offset_length(justify_content_offset_spec(num_items, JustifyContent::SpaceBetween, layout_is_flex_reversed, true, free_space_is_nonnegative), free_space, gap), ratio_of(0)),
        !free_space_is_nonnegative ==> ratio_eq(ratio_scale(2, offset_length(justify_content_offset_spec(num_items, JustifyContent::SpaceAround, layout_is_flex_reversed, true, free_space_is_nonnegative), free_space, gap)), ratio_of(free_space)),
        !free_space_is_nonnegative ==> ratio_eq(ratio_scale(2, offset_length(justify_content_offset_spec(num_items, JustifyContent::SpaceEvenly, layout_is_flex_reversed, true, free_space_is_nonnegative), free_space, gap)), ratio_of(free_space)),
{
}

/// The offset before every item after the first, as a length: under a positional keyword or
/// `stretch` it is only the gap; under a distributed keyword it is the gap plus a share of the
/// free space that does not depend on the gap, and that share is nothing where there is no
/// free space.
pub proof fn justify_content_later_offsets_are_the_gap_and_a_share(num_items: usize, mode: JustifyContent, layout_is_flex_reversed: bool, free_space_is_nonnegative: bool, free_space: int, gap: int)
    ensures
        (mode == JustifyContent::Start || mode == JustifyContent::End || mode == JustifyContent::FlexStart || mode == JustifyContent::FlexEnd || mode == JustifyContent::Center || mode == JustifyContent::Stretch)
            ==> ratio_eq(offset_length(justify_content_offset_spec(num_items, mode, layout_is_flex_reversed, false, free_space_is_nonnegative), free_space, gap), ratio_of(gap)),
        (2 <= num_items < usize::MAX && (mode == JustifyContent::SpaceBetween || mode == JustifyContent::SpaceAround || mode == JustifyContent::SpaceEvenly))
            ==> ratio_eq(offset_length(justify_content_offset_spec(num_items, mode, layout_is_flex_reversed, false, free_space_is_nonnegative), free_space, gap),
                ratio_add(ratio_of(gap), offset_length(justify_content_offset_spec(num_items, mode, layout_is_flex_reversed, false, free_space_is_nonnegative), free_space, 0))),
        (2 <= num_items < usize::MAX && free_space <= 0 && (mode == JustifyContent::SpaceBetween || mode == JustifyContent::SpaceAround || mode == JustifyContent::SpaceEvenly))
            ==> ratio_eq(offset_length(justify_content_offset_spec(num_items, mode, layout_is_flex_reversed, false, free_space_is_nonnegative), free_space, gap), ratio_of(gap)),
{
}

/// Whether the offset for `mode` can be computed: the mode is resolved, and the item counts that
/// the chosen rule adds to or subtracts from stay within `usize`.
pub open spec fn justify_content_offset_is_defined(num_items: usize, mode: JustifyContent, is_first: bool, free_space_is_nonnegative: bool) -> bool {
    &&& justify_content_is_resolved(mode)
    &&& (!is_first && mode == JustifyContent::SpaceBetween) ==> num_items >= 1
    &&& (mode == JustifyContent::SpaceEvenly && (!is_first || free_space_is_nonnegative)) ==> num_items < usize::MAX
}

/// The rule for the offset before an item under `justify-content`: the first item of a line is placed
/// according to the keyword; every later item follows the gap and its share of the free space.
pub open spec fn justify_content_offset_spec(
    num_items: usize,
    mode: JustifyContent,
    layout_is_flex_reversed: bool,
    is_first: bool,
    free_space_is_nonnegative: bool,
) -> ContentOffset {
    if is_first {
        match mode {
            JustifyContent::Start => ContentOffset::Zero,
            JustifyContent::FlexStart => if layout_is_flex_reversed { ContentOffset::FreeSpace } else { ContentOffset::Zero },
            JustifyContent::End => ContentOffset::FreeSpace,
            JustifyContent::FlexEnd => if layout_is_flex_reversed { ContentOffset::Zero } else { ContentOffset::FreeSpace },
            JustifyContent::Center => ContentOffset::HalfFreeSpace,
            JustifyContent::SpaceAround => if free_space_is_nonnegative { ContentOffset::HalfShare(num_items) } else { ContentOffset::HalfFreeSpace },
            JustifyContent::SpaceEvenly => if free_space_is_nonnegative { ContentOffset::Share((num_items + 1) as usize) } else { ContentOffset::HalfFreeSpace },
            _ => ContentOffset::Zero,
        }
    } else {
        match mode {
            JustifyContent::SpaceBetween => ContentOffset::GapAndShare((num_items - 1) as usize),
            JustifyContent::SpaceAround => ContentOffset::GapAndShare(num_items),
            JustifyContent::SpaceEvenly => ContentOffset::GapAndShare((num_items + 1) as usize),
            _ => ContentOffset::Gap,
        }
    }
}

/// Compute how the `justify-content` offset before an item is obtained from the free space and the gap.
///
/// `free_space_is_nonnegative` is whether the free space is zero or more. CSS Grid does not
/// apply gaps as part of alignment, so its gap is zero.
pub fn justify_content_offset(
    num_items: usize,
    alignment_mode: JustifyContent,
    layout_is_flex_reversed: bool,
    is_first: bool,
    free_space_is_nonnegative: bool,
) -> (r: ContentOffset)
    requires
        justify_content_offset_is_defined(num_items, alignment_mode, is_first, free_space_is_nonnegative),
    ensures
        r == justify_content_offset_spec(num_items, alignment_mode, layout_is_flex_reversed, is_first, free_space_is_nonnegative),
{
    if is_first {
        match alignment_mode {
            JustifyContent::Start => ContentOffset::Zero,
            JustifyContent::FlexStart => {
                if layout_is_flex_reversed {
                    ContentOffset::FreeSpace
                } else {
                    ContentOffset::Zero
                }
            },
            JustifyContent::End => ContentOffset::FreeSpace,
            JustifyContent::FlexEnd => {
                if layout_is_flex_reversed {
                    ContentOffset::Zero
                } else {
                    ContentOffset::FreeSpace
                }
            },
            JustifyContent::Center => ContentOffset::HalfFreeSpace,
            JustifyContent::Stretch | JustifyContent::SpaceBetween => ContentOffset::Zero,
            JustifyContent::SpaceAround => {
                if free_space_is_nonnegative {
                    ContentOffset::HalfShare(num_items)
                } else {
                    ContentOffset::HalfFreeSpace
                }
            },
            JustifyContent::SpaceEvenly => {
                if free_space_is_nonnegative {
                    ContentOffset::Share(num_items + 1)
                } else {
                    ContentOffset::HalfFreeSpace
                }
            },
            JustifyContent::Normal
            | JustifyContent::SafeStart
            | JustifyContent::SafeEnd
            | JustifyContent::SafeFlexStart
            | JustifyContent::SafeFlexEnd
            | JustifyContent::SafeCenter => ContentOffset::Zero,
        }
    } else {
        match alignment_mode {
            JustifyContent::Start
            | JustifyContent::FlexStart
            | JustifyContent::End
            | JustifyContent::FlexEnd
            | JustifyContent::Center
            | JustifyContent::Stretch => ContentOffset::Gap,
            JustifyContent::SpaceBetween => ContentOffset::GapAndShare(num_items - 1),
            JustifyContent::SpaceAround => ContentOffset::GapAndShare(num_items),
            JustifyContent::SpaceEvenly => ContentOffset::GapAndShare(num_items + 1),
            JustifyContent::Normal
            | JustifyContent::SafeStart
            | JustifyContent::SafeEnd
            | JustifyContent::SafeFlexStart
            | JustifyContent::SafeFlexEnd
            | JustifyContent::SafeCenter => ContentOffset::Gap,
        }
    }
}

/// The distributed keywords share out the free space as the CSS alignment module describes.
/// With `n` items, a free space `f >= 0` and no gap, the offset before the first item, the
/// `n - 1` offsets between items and the space after the last item add up to `f`; under
/// `space-between` the first and last items are flush with the edges, under `space-evenly` all
/// the gaps are equal, and under `space-around` the outer gaps are half the inner ones.
pub proof fn justify_content_distributes_free_space(num_items: usize, mode: JustifyContent, layout_is_flex_reversed: bool, free_space: int)
    requires
        free_space >= 0,
        2 <= num_items < usize::MAX,
        mode == JustifyContent::SpaceBetween || mode == JustifyContent::SpaceAround || mode == JustifyContent::SpaceEvenly,
    ensures
        ({
            let first = offset_length(justify_content_offset_spec(num_items, mode, layout_is_flex_reversed, true, true), free_space, 0);
            let between = offset_length(justify_content_offset_spec(num_items, mode, layout_is_flex_reversed, false, true), free_space, 0);
            let last = if mode == JustifyContent::SpaceBetween { ratio_of(0) } else { first };
            &&& ratio_eq(ratio_add(ratio_add(first, ratio_scale(num_items - 1, between)), last), ratio_of(free_space))
            &&& mode == JustifyContent::SpaceBetween ==> ratio_eq(first, ratio_of(0))
            &&& mode == JustifyContent::SpaceEvenly ==> ratio_eq(first, between)
            &&& mode == JustifyContent::SpaceAround ==> ratio_eq(ratio_scale(2, first), between)
        }),
{
    let n = num_items as int;
    let f = free_space;
    let first = offset_length(justify_content_offset_spec(num_items, mode, layout_is_flex_reversed, true, true), f, 0);
    let between = offset_length(justify_content_offset_spec(num_items, mode, layout_is_flex_reversed, false, true), f, 0);
    let last = if mode == JustifyContent::SpaceBetween { ratio_of(0) } else { first };
    let inner = ratio_add(first, ratio_scale(n - 1, between));
    let total = ratio_add(inner, last);
    if mode == JustifyContent::SpaceBetween {
        assert(first.num == 0 && first.den == 1);
        assert(between.num == f && between.den == n - 1);
        assert(inner.num == (n - 1) * f && inner.den == n - 1);
        assert(total.num == (n - 1) * f && total.den == n - 1);
        lemma_distribution_between(f, n);
    } else if mode == JustifyContent::SpaceAround {
        assert(first.num == f && first.den == 2 * n);
        assert(between.num == f && between.den == n);
        assert(inner.num == f * n + ((n - 1) * f) * (2 * n) && inner.den == (2 * n) * n);
        assert(total.num == (f * n + ((n - 1) * f) * (2 * n)) * (2 * n) + f * ((2 * n) * n));
        assert(total.den == ((2 * n) * n) * (2 * n));
        lemma_distribution_around(f, n);
    } else {
        assert(first.num == f && first.den == n + 1);
        assert(between.num == f && between.den == n + 1);
        assert(inner.num == f * (n + 1) + ((n - 1) * f) * (n + 1) && inner.den == (n + 1) * (n + 1));
        assert(total.num == (f * (n + 1) + ((n - 1) * f) * (n + 1)) * (n + 1) + f * ((n + 1) * (n + 1)));
        assert(total.den == ((n + 1) * (n + 1)) * (n + 1));
        lemma_distribution_evenly(f, n);
    }
}

/// Flex reversal swaps `flex-start` and `flex-end` for the first item and changes nothing else;
/// every item after the first is offset by the gap plus a share of the non-negative free space,
/// whatever the first item's rule; and the first item under `stretch` or `space-between` sits
/// at the start.
pub proof fn justify_content_offset_laws(num_items: usize, mode: JustifyContent, layout_is_flex_reversed: bool, free_space_is_nonnegative: bool)
    ensures
        justify_content_offset_spec(num_items, JustifyContent::FlexStart, layout_is_flex_reversed, true, free_space_is_nonnegative)
            == justify_content_offset_spec(num_items, JustifyContent::FlexEnd, !layout_is_flex_reversed, true, free_space_is_nonnegative),
        (justify_content_is_resolved(mode) && mode != JustifyContent::FlexStart && mode != JustifyContent::FlexEnd) ==>
            justify_content_offset_spec(num_items, mode, layout_is_flex_reversed, true, free_space_is_nonnegative)
            == justify_content_offset_spec(num_items, mode, !layout_is_flex_reversed, true, free_space_is_nonnegative),
        justify_content_offset_spec(num_items, mode, layout_is_flex_reversed, false, free_space_is_nonnegative)
            == justify_content_offset_spec(num_items, mode, !layout_is_flex_reversed, false, !free_space_is_nonnegative),
        justify_content_offset_spec(num_items, mode, layout_is_flex_reversed, false, free_space_is_nonnegative) is Gap
            || justify_content_offset_spec(num_items, mode, layout_is_flex_reversed, false, free_space_is_nonnegative) is GapAndShare,
        (mode == JustifyContent::Stretch || mode == JustifyContent::SpaceBetween) ==>
            justify_content_offset_spec(num_items, mode, layout_is_flex_reversed, true, free_space_is_nonnegative) == ContentOffset::Zero,
{
}

} // verus!
