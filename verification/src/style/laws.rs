use vstd::prelude::*;
use vstd::std_specs::convert::FromSpec;

use crate::style::alignment::{AlignContent, AlignItems, AlignSelf, JustifyContent, JustifyItems, JustifySelf};
use crate::style::direction::Direction;

verus! {

/// Whether `v` is one of the self-relative values `self-start`, `self-end` or their `safe` forms.
pub open spec fn align_self_is_self_relative(v: AlignSelf) -> bool {
    match v {
        AlignSelf::SelfStart | AlignSelf::SelfEnd | AlignSelf::SafeSelfStart | AlignSelf::SafeSelfEnd => true,
        _ => false,
    }
}

/// Stripping the `safe` modifier leaves a value without it, leaves values that never had it
/// unchanged, and so doing it twice is the same as doing it once.
pub proof fn align_self_unsafe_variant_strips_safety(v: AlignSelf)
    ensures
        !v.unsafe_variant().is_safe(),
        !v.is_safe() ==> v.unsafe_variant() == v,
        v.unsafe_variant().unsafe_variant() == v.unsafe_variant(),
{
}

/// Resolving `self-start`/`self-end` leaves no self-relative value, keeps the `safe` modifier
/// as it was, and resolving the result again (against any directions) changes nothing.
pub proof fn align_self_resolve_self_relative_is_complete(v: AlignSelf, item: Direction, container: Direction, inline_axis: bool, item2: Direction, container2: Direction, inline_axis2: bool)
    ensures
        !align_self_is_self_relative(v.resolve_self_relative(item, container, inline_axis)),
        v.resolve_self_relative(item, container, inline_axis).is_safe() == v.is_safe(),
        v.resolve_self_relative(item, container, inline_axis).resolve_self_relative(item2, container2, inline_axis2)
            == v.resolve_self_relative(item, container, inline_axis),
        !align_self_is_self_relative(v) ==> v.resolve_self_relative(item, container, inline_axis) == v,
{
}

/// `self-start` and `self-end` only swap in the inline axis between boxes of opposite
/// directions; which of the two boxes is the item does not matter.
pub proof fn align_self_resolve_self_relative_flips_only_across_directions(v: AlignSelf, item: Direction, container: Direction, inline_axis: bool)
    ensures
        v.resolve_self_relative(item, container, inline_axis) == v.resolve_self_relative(container, item, inline_axis),
        (!inline_axis || item == container) ==> v.resolve_self_relative(item, container, inline_axis)
            == v.resolve_self_relative(Direction::Ltr, Direction::Ltr, false),
        v.resolve_self_relative(Direction::Ltr, Direction::Ltr, false) == v.resolve_self_relative_with(false),
        v == AlignSelf::SelfStart ==> v.resolve_self_relative(item, container, inline_axis)
            == (if inline_axis && item != container { AlignSelf::End } else { AlignSelf::Start }),
{
}

/// Resolving self-relative values and stripping the `safe` modifier can be done in either order.
pub proof fn align_self_resolve_self_relative_commutes_with_unsafe_variant(v: AlignSelf, item: Direction, container: Direction, inline_axis: bool)
    ensures
        v.resolve_self_relative(item, container, inline_axis).unsafe_variant()
            == v.unsafe_variant().resolve_self_relative(item, container, inline_axis),
{
}

/// Converting an `AlignItems` value keeps it: the `safe` modifier is kept, `auto` never comes out,
/// and distinct values stay distinct.
pub proof fn align_self_from_items_preserves_values(a: AlignItems, b: AlignItems)
    ensures
        <AlignSelf as FromSpec<AlignItems>>::from_spec(a).is_safe() == a.is_safe(),
        <AlignSelf as FromSpec<AlignItems>>::from_spec(a) != AlignSelf::Auto,
        <AlignSelf as FromSpec<AlignItems>>::from_spec(a) == <AlignSelf as FromSpec<AlignItems>>::from_spec(b) ==> a == b,
{
}

/// Whether `v` is one of the self-relative values `self-start`, `self-end` or their `safe` forms.
pub open spec fn justify_self_is_self_relative(v: JustifySelf) -> bool {
    match v {
        JustifySelf::SelfStart | JustifySelf::SelfEnd | JustifySelf::SafeSelfStart | JustifySelf::SafeSelfEnd => true,
        _ => false,
    }
}

/// Stripping the `safe` modifier leaves a value without it, leaves values that never had it
/// unchanged, and so doing it twice is the same as doing it once.
pub proof fn justify_self_unsafe_variant_strips_safety(v: JustifySelf)
    ensures
        !v.unsafe_variant().is_safe(),
        !v.is_safe() ==> v.unsafe_variant() == v,
        v.unsafe_variant().unsafe_variant() == v.unsafe_variant(),
{
}

/// Resolving `self-start`/`self-end` leaves no self-relative value, keeps the `safe` modifier
/// as it was, and resolving the result again (against any directions) changes nothing.
pub proof fn justify_self_resolve_self_relative_is_complete(v: JustifySelf, item: Direction, container: Direction, inline_axis: bool, item2: Direction, container2: Direction, inline_axis2: bool)
    ensures
        !justify_self_is_self_relative(v.resolve_self_relative(item, container, inline_axis)),
        v.resolve_self_relative(item, container, inline_axis).is_safe() == v.is_safe(),
        v.resolve_self_relative(item, container, inline_axis).resolve_self_relative(item2, container2, inline_axis2)
            == v.resolve_self_relative(item, container, inline_axis),
        !justify_self_is_self_relative(v) ==> v.resolve_self_relative(item, container, inline_axis) == v,
{
}

/// `self-start` and `self-end` only swap in the inline axis between boxes of opposite
/// directions; which of the two boxes is the item does not matter.
pub proof fn justify_self_resolve_self_relative_flips_only_across_directions(v: JustifySelf, item: Direction, container: Direction, inline_axis: bool)
    ensures
        v.resolve_self_relative(item, container, inline_axis) == v.resolve_self_relative(container, item, inline_axis),
        (!inline_axis || item == container) ==> v.resolve_self_relative(item, container, inline_axis)
            == v.resolve_self_relative(Direction::Ltr, Direction::Ltr, false),
        v.resolve_self_relative(Direction::Ltr, Direction::Ltr, false) == v.resolve_self_relative_with(false),
        v == JustifySelf::SelfStart ==> v.resolve_self_relative(item, container, inline_axis)
            == (if inline_axis && item != container { JustifySelf::End } else { JustifySelf::Start }),
{
}

/// Resolving self-relative values and stripping the `safe` modifier can be done in either order.
pub proof fn justify_self_resolve_self_relative_commutes_with_unsafe_variant(v: JustifySelf, item: Direction, container: Direction, inline_axis: bool)
    ensures
        v.resolve_self_relative(item, container, inline_axis).unsafe_variant()
            == v.unsafe_variant().resolve_self_relative(item, container, inline_axis),
{
}

/// Converting an `JustifyItems` value keeps it: the `safe` modifier is kept, `auto` never comes out,
/// and distinct values stay distinct.
pub proof fn justify_self_from_items_preserves_values(a: JustifyItems, b: JustifyItems)
    ensures
        <JustifySelf as FromSpec<JustifyItems>>::from_spec(a).is_safe() == a.is_safe(),
        <JustifySelf as FromSpec<JustifyItems>>::from_spec(a) != JustifySelf::Auto,
        <JustifySelf as FromSpec<JustifyItems>>::from_spec(a) == <JustifySelf as FromSpec<JustifyItems>>::from_spec(b) ==> a == b,
{
}

/// Stripping the `safe` modifier leaves a value without it, leaves values that never had it
/// unchanged, and so doing it twice is the same as doing it once.
pub proof fn align_content_unsafe_variant_strips_safety(v: AlignContent)
    ensures
        !v.unsafe_variant().is_safe(),
        !v.is_safe() ==> v.unsafe_variant() == v,
        v.unsafe_variant().unsafe_variant() == v.unsafe_variant(),
{
}

/// Reversing twice gives the value back, for every value but `stretch` (which reverses to `end`).
pub proof fn align_content_reversed_is_an_involution(v: AlignContent)
    requires
        v != AlignContent::Stretch,
    ensures
        v.reversed().reversed() == v,
{
}

/// Reversing keeps the `safe` modifier and can be done before or after stripping it.
pub proof fn align_content_reversed_respects_safety(v: AlignContent)
    ensures
        v.reversed().is_safe() == v.is_safe(),
        v.reversed().unsafe_variant() == v.unsafe_variant().reversed(),
{
}

/// Stripping the `safe` modifier leaves a value without it, leaves values that never had it
/// unchanged, and so doing it twice is the same as doing it once.
pub proof fn justify_content_unsafe_variant_strips_safety(v: JustifyContent)
    ensures
        !v.unsafe_variant().is_safe(),
        !v.is_safe() ==> v.unsafe_variant() == v,
        v.unsafe_variant().unsafe_variant() == v.unsafe_variant(),
{
}

/// Reversing twice gives the value back, for every value but `stretch` (which reverses to `end`).
pub proof fn justify_content_reversed_is_an_involution(v: JustifyContent)
    requires
        v != JustifyContent::Stretch,
    ensures
        v.reversed().reversed() == v,
{
}

/// Reversing keeps the `safe` modifier and can be done before or after stripping it.
pub proof fn justify_content_reversed_respects_safety(v: JustifyContent)
    ensures
        v.reversed().is_safe() == v.is_safe(),
        v.reversed().unsafe_variant() == v.unsafe_variant().reversed(),
{
}

} // verus!
