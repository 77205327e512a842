//! The keyword that names each alignment value, and the laws that tie the operations on values
//! to what they do to those names.
use vstd::prelude::*;
use vstd::std_specs::convert::FromSpec;

use crate::style::alignment::{AlignContent, AlignItems, AlignSelf, JustifyContent, JustifyItems, JustifySelf};
use crate::style::direction::Direction;
use crate::style::parse::{CssKeyword, CssKeywordValue};

verus! {

/// The keyword that `reversed` turns `k` into: `start` and `end`, and `flex-start` and
/// `flex-end`, trade places, and `stretch` packs to the end.
pub open spec fn reversed_keyword(k: CssKeyword) -> CssKeyword {
    match k {
        CssKeyword::Start => CssKeyword::End,
        CssKeyword::End => CssKeyword::Start,
        CssKeyword::FlexStart => CssKeyword::FlexEnd,
        CssKeyword::FlexEnd => CssKeyword::FlexStart,
        CssKeyword::Stretch => CssKeyword::End,
        k => k,
    }
}

/// The keyword that `self-start`/`self-end` resolve to: `self-start` is the item's start side,
/// which is the container's `end` where the two directions differ in the inline axis.
pub open spec fn resolved_self_keyword(k: CssKeyword, item: Direction, container: Direction, inline_axis: bool) -> CssKeyword {
    let opposite = inline_axis && item != container;
    match k {
        CssKeyword::SelfStart => if opposite { CssKeyword::End } else { CssKeyword::Start },
        CssKeyword::SelfEnd => if opposite { CssKeyword::Start } else { CssKeyword::End },
        k => k,
    }
}

/// The keyword that names a `align-items` value, without its `safe` modifier.
pub open spec fn align_items_keyword(v: AlignItems) -> CssKeyword {
    match v {
        AlignItems::Normal => CssKeyword::Normal,
        AlignItems::Start => CssKeyword::Start,
        AlignItems::End => CssKeyword::End,
        AlignItems::FlexStart => CssKeyword::FlexStart,
        AlignItems::FlexEnd => CssKeyword::FlexEnd,
        AlignItems::SelfStart => CssKeyword::SelfStart,
        AlignItems::SelfEnd => CssKeyword::SelfEnd,
        AlignItems::Center => CssKeyword::Center,
        AlignItems::Baseline => CssKeyword::Baseline,
        AlignItems::Stretch => CssKeyword::Stretch,
        AlignItems::SafeStart => CssKeyword::Start,
        AlignItems::SafeEnd => CssKeyword::End,
        AlignItems::SafeFlexStart => CssKeyword::FlexStart,
        AlignItems::SafeFlexEnd => CssKeyword::FlexEnd,
        AlignItems::SafeSelfStart => CssKeyword::SelfStart,
        AlignItems::SafeSelfEnd => CssKeyword::SelfEnd,
        AlignItems::SafeCenter => CssKeyword::Center,
    }
}

/// Each `align-items` keyword parses to the value it names: a keyword on its own gives the
/// value of that name without `safe`, `safe` or `unsafe` before a keyword gives the value of
/// that name with or without `safe`, and every value can be written in one of these ways.
pub proof fn align_items_keywords_name_their_values(v: AlignItems, k: CssKeyword, safe: bool)
    ensures
        <AlignItems as CssKeywordValue>::keyword_value(k) matches Some(w) ==> !w.is_safe() && align_items_keyword(w) == k,
        <AlignItems as CssKeywordValue>::positioned_value(safe, k) matches Some(w) ==> w.is_safe() == safe && align_items_keyword(w) == k,
        !v.is_safe() ==> <AlignItems as CssKeywordValue>::keyword_value(align_items_keyword(v)) == Some(v),
        v.is_safe() ==> <AlignItems as CssKeywordValue>::positioned_value(true, align_items_keyword(v)) == Some(v),
{
}

/// The keyword that names a `align-self` value, without its `safe` modifier.
pub open spec fn align_self_keyword(v: AlignSelf) -> CssKeyword {
    match v {
        AlignSelf::Auto => CssKeyword::Auto,
        AlignSelf::Normal => CssKeyword::Normal,
        AlignSelf::Start => CssKeyword::Start,
        AlignSelf::End => CssKeyword::End,
        AlignSelf::FlexStart => CssKeyword::FlexStart,
        AlignSelf::FlexEnd => CssKeyword::FlexEnd,
        AlignSelf::SelfStart => CssKeyword::SelfStart,
        AlignSelf::SelfEnd => CssKeyword::SelfEnd,
        AlignSelf::Center => CssKeyword::Center,
        AlignSelf::Baseline => CssKeyword::Baseline,
        AlignSelf::Stretch => CssKeyword::Stretch,
        AlignSelf::SafeStart => CssKeyword::Start,
        AlignSelf::SafeEnd => CssKeyword::End,
        AlignSelf::SafeFlexStart => CssKeyword::FlexStart,
        AlignSelf::SafeFlexEnd => CssKeyword::FlexEnd,
        AlignSelf::SafeSelfStart => CssKeyword::SelfStart,
        AlignSelf::SafeSelfEnd => CssKeyword::SelfEnd,
        AlignSelf::SafeCenter => CssKeyword::Center,
    }
}

/// Each `align-self` keyword parses to the value it names: a keyword on its own gives the
/// value of that name without `safe`, `safe` or `unsafe` before a keyword gives the value of
/// that name with or without `safe`, and every value can be written in one of these ways.
pub proof fn align_self_keywords_name_their_values(v: AlignSelf, k: CssKeyword, safe: bool)
    ensures
        <AlignSelf as CssKeywordValue>::keyword_value(k) matches Some(w) ==> !w.is_safe() && align_self_keyword(w) == k,
        <AlignSelf as CssKeywordValue>::positioned_value(safe, k) matches Some(w) ==> w.is_safe() == safe && align_self_keyword(w) == k,
        !v.is_safe() ==> <AlignSelf as CssKeywordValue>::keyword_value(align_self_keyword(v)) == Some(v),
        v.is_safe() ==> <AlignSelf as CssKeywordValue>::positioned_value(true, align_self_keyword(v)) == Some(v),
{
}

/// Stripping the `safe` modifier keeps the keyword.
pub proof fn align_self_unsafe_variant_keeps_the_keyword(v: AlignSelf)
    ensures
        align_self_keyword(v.unsafe_variant()) == align_self_keyword(v),
        !v.unsafe_variant().is_safe(),
{
}

/// Resolving self-relative values replaces `self-start` by the item's start side and
/// `self-end` by the opposite side, keeps every other keyword, and keeps the `safe` modifier.
pub proof fn align_self_resolve_self_relative_by_keyword(v: AlignSelf, item: Direction, container: Direction, inline_axis: bool)
    ensures
        align_self_keyword(v.resolve_self_relative(item, container, inline_axis))
            == resolved_self_keyword(align_self_keyword(v), item, container, inline_axis),
        v.resolve_self_relative(item, container, inline_axis).is_safe() == v.is_safe(),
        v == AlignSelf::SelfEnd ==> v.resolve_self_relative(item, container, inline_axis)
            == (if inline_axis && item != container { AlignSelf::Start } else { AlignSelf::End }),
        v == AlignSelf::SafeSelfEnd ==> v.resolve_self_relative(item, container, inline_axis)
            == (if inline_axis && item != container { AlignSelf::SafeStart } else { AlignSelf::SafeEnd }),
        v == AlignSelf::SafeSelfStart ==> v.resolve_self_relative(item, container, inline_axis)
            == (if inline_axis && item != container { AlignSelf::SafeEnd } else { AlignSelf::SafeStart }),
{
}

/// Converting an `AlignItems` value keeps its keyword and its `safe` modifier.
pub proof fn align_self_from_items_keeps_the_keyword(v: AlignItems)
    ensures
        align_self_keyword(<AlignSelf as FromSpec<AlignItems>>::from_spec(v)) == align_items_keyword(v),
        <AlignSelf as FromSpec<AlignItems>>::from_spec(v).is_safe() == v.is_safe(),
{
}

/// The keyword that names a `justify-items` value, without its `safe` modifier.
pub open spec fn justify_items_keyword(v: JustifyItems) -> CssKeyword {
    match v {
        JustifyItems::Normal => CssKeyword::Normal,
        JustifyItems::Start => CssKeyword::Start,
        JustifyItems::End => CssKeyword::End,
        JustifyItems::FlexStart => CssKeyword::FlexStart,
        JustifyItems::FlexEnd => CssKeyword::FlexEnd,
        JustifyItems::SelfStart => CssKeyword::SelfStart,
        JustifyItems::SelfEnd => CssKeyword::SelfEnd,
        JustifyItems::Center => CssKeyword::Center,
        JustifyItems::Baseline => CssKeyword::Baseline,
        JustifyItems::Stretch => CssKeyword::Stretch,
        JustifyItems::SafeStart => CssKeyword::Start,
        JustifyItems::SafeEnd => CssKeyword::End,
        JustifyItems::SafeFlexStart => CssKeyword::FlexStart,
        JustifyItems::SafeFlexEnd => CssKeyword::FlexEnd,
        JustifyItems::SafeSelfStart => CssKeyword::SelfStart,
        JustifyItems::SafeSelfEnd => CssKeyword::SelfEnd,
        JustifyItems::SafeCenter => CssKeyword::Center,
    }
}

/// Each `justify-items` keyword parses to the value it names: a keyword on its own gives the
/// value of that name without `safe`, `safe` or `unsafe` before a keyword gives the value of
/// that name with or without `safe`, and every value can be written in one of these ways.
pub proof fn justify_items_keywords_name_their_values(v: JustifyItems, k: CssKeyword, safe: bool)
    ensures
        <JustifyItems as CssKeywordValue>::keyword_value(k) matches Some(w) ==> !w.is_safe() && justify_items_keyword(w) == k,
        <JustifyItems as CssKeywordValue>::positioned_value(safe, k) matches Some(w) ==> w.is_safe() == safe && justify_items_keyword(w) == k,
        !v.is_safe() ==> <JustifyItems as CssKeywordValue>::keyword_value(justify_items_keyword(v)) == Some(v),
        v.is_safe() ==> <JustifyItems as CssKeywordValue>::positioned_value(true, justify_items_keyword(v)) == Some(v),
{
}

/// The keyword that names a `justify-self` value, without its `safe` modifier.
pub open spec fn justify_self_keyword(v: JustifySelf) -> CssKeyword {
    match v {
        JustifySelf::Auto => CssKeyword::Auto,
        JustifySelf::Normal => CssKeyword::Normal,
        JustifySelf::Start => CssKeyword::Start,
        JustifySelf::End => CssKeyword::End,
        JustifySelf::FlexStart => CssKeyword::FlexStart,
        JustifySelf::FlexEnd => CssKeyword::FlexEnd,
        JustifySelf::SelfStart => CssKeyword::SelfStart,
        JustifySelf::SelfEnd => CssKeyword::SelfEnd,
        JustifySelf::Center => CssKeyword::Center,
        JustifySelf::Baseline => CssKeyword::Baseline,
        JustifySelf::Stretch => CssKeyword::Stretch,
        JustifySelf::SafeStart => CssKeyword::Start,
        JustifySelf::SafeEnd => CssKeyword::End,
        JustifySelf::SafeFlexStart => CssKeyword::FlexStart,
        JustifySelf::SafeFlexEnd => CssKeyword::FlexEnd,
        JustifySelf::SafeSelfStart => CssKeyword::SelfStart,
        JustifySelf::SafeSelfEnd => CssKeyword::SelfEnd,
        JustifySelf::SafeCenter => CssKeyword::Center,
    }
}

/// Each `justify-self` keyword parses to the value it names: a keyword on its own gives the
/// value of that name without `safe`, `safe` or `unsafe` before a keyword gives the value of
/// that name with or without `safe`, and every value can be written in one of these ways.
pub proof fn justify_self_keywords_name_their_values(v: JustifySelf, k: CssKeyword, safe: bool)
    ensures
        <JustifySelf as CssKeywordValue>::keyword_value(k) matches Some(w) ==> !w.is_safe() && justify_self_keyword(w) == k,
        <JustifySelf as CssKeywordValue>::positioned_value(safe, k) matches Some(w) ==> w.is_safe() == safe && justify_self_keyword(w) == k,
        !v.is_safe() ==> <JustifySelf as CssKeywordValue>::keyword_value(justify_self_keyword(v)) == Some(v),
        v.is_safe() ==> <JustifySelf as CssKeywordValue>::positioned_value(true, justify_self_keyword(v)) == Some(v),
{
}

/// Stripping the `safe` modifier keeps the keyword.
pub proof fn justify_self_unsafe_variant_keeps_the_keyword(v: JustifySelf)
    ensures
        justify_self_keyword(v.unsafe_variant()) == justify_self_keyword(v),
        !v.unsafe_variant().is_safe(),
{
}

/// Resolving self-relative values replaces `self-start` by the item's start side and
/// `self-end` by the opposite side, keeps every other keyword, and keeps the `safe` modifier.
pub proof fn justify_self_resolve_self_relative_by_keyword(v: JustifySelf, item: Direction, container: Direction, inline_axis: bool)
    ensures
        justify_self_keyword(v.resolve_self_relative(item, container, inline_axis))
            == resolved_self_keyword(justify_self_keyword(v), item, container, inline_axis),
        v.resolve_self_relative(item, container, inline_axis).is_safe() == v.is_safe(),
        v == JustifySelf::SelfEnd ==> v.resolve_self_relative(item, container, inline_axis)
            == (if inline_axis && item != container { JustifySelf::Start } else { JustifySelf::End }),
        v == JustifySelf::SafeSelfEnd ==> v.resolve_self_relative(item, container, inline_axis)
            == (if inline_axis && item != container { JustifySelf::SafeStart } else { JustifySelf::SafeEnd }),
        v == JustifySelf::SafeSelfStart ==> v.resolve_self_relative(item, container, inline_axis)
            == (if inline_axis && item != container { JustifySelf::SafeEnd } else { JustifySelf::SafeStart }),
{
}

/// Converting an `JustifyItems` value keeps its keyword and its `safe` modifier.
pub proof fn justify_self_from_items_keeps_the_keyword(v: JustifyItems)
    ensures
        justify_self_keyword(<JustifySelf as FromSpec<JustifyItems>>::from_spec(v)) == justify_items_keyword(v),
        <JustifySelf as FromSpec<JustifyItems>>::from_spec(v).is_safe() == v.is_safe(),
{
}

/// The keyword that names a `align-content` value, without its `safe` modifier.
pub open spec fn align_content_keyword(v: AlignContent) -> CssKeyword {
    match v {
        AlignContent::Normal => CssKeyword::Normal,
        AlignContent::Start => CssKeyword::Start,
        AlignContent::End => CssKeyword::End,
        AlignContent::FlexStart => CssKeyword::FlexStart,
        AlignContent::FlexEnd => CssKeyword::FlexEnd,
        AlignContent::Center => CssKeyword::Center,
        AlignContent::Stretch => CssKeyword::Stretch,
        AlignContent::SpaceBetween => CssKeyword::SpaceBetween,
        AlignContent::SpaceEvenly => CssKeyword::SpaceEvenly,
        AlignContent::SpaceAround => CssKeyword::SpaceAround,
        AlignContent::SafeStart => CssKeyword::Start,
        AlignContent::SafeEnd => CssKeyword::End,
        AlignContent::SafeFlexStart => CssKeyword::FlexStart,
        AlignContent::SafeFlexEnd => CssKeyword::FlexEnd,
        AlignContent::SafeCenter => CssKeyword::Center,
    }
}

/// Each `align-content` keyword parses to the value it names: a keyword on its own gives the
/// value of that name without `safe`, `safe` or `unsafe` before a keyword gives the value of
/// that name with or without `safe`, and every value can be written in one of these ways.
pub proof fn align_content_keywords_name_their_values(v: AlignContent, k: CssKeyword, safe: bool)
    ensures
        <AlignContent as CssKeywordValue>::keyword_value(k) matches Some(w) ==> !w.is_safe() && align_content_keyword(w) == k,
        <AlignContent as CssKeywordValue>::positioned_value(safe, k) matches Some(w) ==> w.is_safe() == safe && align_content_keyword(w) == k,
        !v.is_safe() ==> <AlignContent as CssKeywordValue>::keyword_value(align_content_keyword(v)) == Some(v),
        v.is_safe() ==> <AlignContent as CssKeywordValue>::positioned_value(true, align_content_keyword(v)) == Some(v),
{
}

/// Stripping the `safe` modifier keeps the keyword.
pub proof fn align_content_unsafe_variant_keeps_the_keyword(v: AlignContent)
    ensures
        align_content_keyword(v.unsafe_variant()) == align_content_keyword(v),
        !v.unsafe_variant().is_safe(),
{
}

/// Reversing swaps `start` with `end` and `flex-start` with `flex-end`, turns `stretch` into
/// `end`, keeps every other keyword, and keeps the `safe` modifier.
pub proof fn align_content_reversed_by_keyword(v: AlignContent)
    ensures
        align_content_keyword(v.reversed()) == reversed_keyword(align_content_keyword(v)),
        v.reversed().is_safe() == v.is_safe(),
{
}

/// The keyword that names a `justify-content` value, without its `safe` modifier.
pub open spec fn justify_content_keyword(v: JustifyContent) -> CssKeyword {
    match v {
        JustifyContent::Normal => CssKeyword::Normal,
        JustifyContent::Start => CssKeyword::Start,
        JustifyContent::End => CssKeyword::End,
        JustifyContent::FlexStart => CssKeyword::FlexStart,
        JustifyContent::FlexEnd => CssKeyword::FlexEnd,
        JustifyContent::Center => CssKeyword::Center,
        JustifyContent::Stretch => CssKeyword::Stretch,
        JustifyContent::SpaceBetween => CssKeyword::SpaceBetween,
        JustifyContent::SpaceEvenly => CssKeyword::SpaceEvenly,
        JustifyContent::SpaceAround => CssKeyword::SpaceAround,
        JustifyContent::SafeStart => CssKeyword::Start,
        JustifyContent::SafeEnd => CssKeyword::End,
        JustifyContent::SafeFlexStart => CssKeyword::FlexStart,
        JustifyContent::SafeFlexEnd => CssKeyword::FlexEnd,
        JustifyContent::SafeCenter => CssKeyword::Center,
    }
}

/// Each `justify-content` keyword parses to the value it names: a keyword on its own gives the
/// value of that name without `safe`, `safe` or `unsafe` before a keyword gives the value of
/// that name with or without `safe`, and every value can be written in one of these ways.
pub proof fn justify_content_keywords_name_their_values(v: JustifyContent, k: CssKeyword, safe: bool)
    ensures
        <JustifyContent as CssKeywordValue>::keyword_value(k) matches Some(w) ==> !w.is_safe() && justify_content_keyword(w) == k,
        <JustifyContent as CssKeywordValue>::positioned_value(safe, k) matches Some(w) ==> w.is_safe() == safe && justify_content_keyword(w) == k,
        !v.is_safe() ==> <JustifyContent as CssKeywordValue>::keyword_value(justify_content_keyword(v)) == Some(v),
        v.is_safe() ==> <JustifyContent as CssKeywordValue>::positioned_value(true, justify_content_keyword(v)) == Some(v),
{
}

/// Stripping the `safe` modifier keeps the keyword.
pub proof fn justify_content_unsafe_variant_keeps_the_keyword(v: JustifyContent)
    ensures
        justify_content_keyword(v.unsafe_variant()) == justify_content_keyword(v),
        !v.unsafe_variant().is_safe(),
{
}

/// Reversing swaps `start` with `end` and `flex-start` with `flex-end`, turns `stretch` into
/// `end`, keeps every other keyword, and keeps the `safe` modifier.
pub proof fn justify_content_reversed_by_keyword(v: JustifyContent)
    ensures
        justify_content_keyword(v.reversed()) == reversed_keyword(justify_content_keyword(v)),
        v.reversed().is_safe() == v.is_safe(),
{
}

} // verus!
