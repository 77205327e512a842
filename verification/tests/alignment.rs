use core::any::TypeId;
use core::mem::size_of;

use gummy::Direction::{Ltr, Rtl};
use gummy::{AlignContent, AlignItems, AlignSelf, JustifyContent, JustifyItems, JustifySelf};

#[test]
fn alignment_types_are_single_byte_enums() {
    assert_eq!(size_of::<AlignItems>(), 1);
    assert_eq!(size_of::<AlignSelf>(), 1);
    assert_eq!(size_of::<JustifyItems>(), 1);
    assert_eq!(size_of::<JustifySelf>(), 1);
    assert_eq!(size_of::<AlignContent>(), 1);
    assert_eq!(size_of::<JustifyContent>(), 1);
}

#[test]
fn alignment_properties_have_distinct_types() {
    let types = [
        TypeId::of::<AlignItems>(),
        TypeId::of::<AlignSelf>(),
        TypeId::of::<JustifyItems>(),
        TypeId::of::<JustifySelf>(),
        TypeId::of::<AlignContent>(),
        TypeId::of::<JustifyContent>(),
    ];

    for (index, lhs) in types.iter().enumerate() {
        for rhs in &types[index + 1..] {
            assert_ne!(lhs, rhs);
        }
    }
}

#[test]
fn property_defaults_match_css_initial_values() {
    assert_eq!(AlignItems::default(), AlignItems::NORMAL);
    assert_eq!(AlignSelf::default(), AlignSelf::AUTO);
    assert_eq!(JustifyItems::default(), JustifyItems::NORMAL);
    assert_eq!(JustifySelf::default(), JustifySelf::AUTO);
    assert_eq!(AlignContent::default(), AlignContent::NORMAL);
    assert_eq!(JustifyContent::default(), JustifyContent::NORMAL);
}

#[test]
fn safe_values_are_identified_and_stripped() {
    assert!(AlignItems::SAFE_SELF_START.is_safe());
    assert!(!AlignItems::SELF_START.is_safe());

    assert!(AlignSelf::SAFE_CENTER.is_safe());
    assert_eq!(AlignSelf::SAFE_CENTER.unsafe_variant(), AlignSelf::CENTER);
    assert!(!AlignSelf::AUTO.is_safe());

    assert!(JustifyItems::SAFE_END.is_safe());
    assert!(!JustifyItems::NORMAL.is_safe());

    assert!(JustifySelf::SAFE_FLEX_END.is_safe());
    assert_eq!(JustifySelf::SAFE_FLEX_END.unsafe_variant(), JustifySelf::FLEX_END);
    assert!(!JustifySelf::AUTO.is_safe());

    assert!(AlignContent::SAFE_START.is_safe());
    assert_eq!(AlignContent::SAFE_START.unsafe_variant(), AlignContent::START);
    assert!(!AlignContent::SPACE_BETWEEN.is_safe());

    assert!(JustifyContent::SAFE_CENTER.is_safe());
    assert_eq!(JustifyContent::SAFE_CENTER.unsafe_variant(), JustifyContent::CENTER);
    assert!(!JustifyContent::SPACE_AROUND.is_safe());
}

#[test]
fn item_to_self_conversions_preserve_values() {
    assert_eq!(AlignSelf::from(AlignItems::NORMAL), AlignSelf::NORMAL);
    assert_eq!(AlignSelf::from(AlignItems::SAFE_SELF_END), AlignSelf::SAFE_SELF_END);
    assert_eq!(JustifySelf::from(JustifyItems::STRETCH), JustifySelf::STRETCH);
    assert_eq!(JustifySelf::from(JustifyItems::SAFE_FLEX_START), JustifySelf::SAFE_FLEX_START);
}

#[test]
fn self_relative_alignment_resolves_per_axis_and_direction() {
    assert_eq!(AlignSelf::SELF_START.resolve_self_relative(Ltr, Ltr, true), AlignSelf::START);
    assert_eq!(AlignSelf::SELF_START.resolve_self_relative(Ltr, Rtl, true), AlignSelf::END);
    assert_eq!(AlignSelf::SAFE_SELF_END.resolve_self_relative(Rtl, Ltr, true), AlignSelf::SAFE_START);
    assert_eq!(AlignSelf::SELF_START.resolve_self_relative(Ltr, Rtl, false), AlignSelf::START);

    assert_eq!(JustifySelf::SELF_END.resolve_self_relative(Rtl, Rtl, true), JustifySelf::END);
    assert_eq!(JustifySelf::SELF_END.resolve_self_relative(Rtl, Ltr, true), JustifySelf::START);
    assert_eq!(JustifySelf::SAFE_SELF_START.resolve_self_relative(Rtl, Ltr, false), JustifySelf::SAFE_START);
}

#[test]
fn content_alignment_reverses_directional_values() {
    assert_eq!(AlignContent::START.reversed(), AlignContent::END);
    assert_eq!(AlignContent::SAFE_FLEX_END.reversed(), AlignContent::SAFE_FLEX_START);
    assert_eq!(AlignContent::STRETCH.reversed(), AlignContent::END);
    assert_eq!(AlignContent::SPACE_AROUND.reversed(), AlignContent::SPACE_AROUND);

    assert_eq!(JustifyContent::END.reversed(), JustifyContent::START);
    assert_eq!(JustifyContent::SAFE_START.reversed(), JustifyContent::SAFE_END);
    assert_eq!(JustifyContent::CENTER.reversed(), JustifyContent::CENTER);
}

#[test]
fn auto_is_only_accepted_by_self_alignment_properties() {
    assert_eq!("auto".parse::<AlignSelf>().unwrap(), AlignSelf::AUTO);
    assert_eq!("AUTO".parse::<JustifySelf>().unwrap(), JustifySelf::AUTO);
    assert!("auto".parse::<AlignItems>().is_err());
    assert!("auto".parse::<JustifyItems>().is_err());
    assert!("auto".parse::<AlignContent>().is_err());
    assert!("auto".parse::<JustifyContent>().is_err());
}

#[test]
fn parses_each_property_specific_type() {
    assert_eq!("normal".parse::<AlignItems>().unwrap(), AlignItems::NORMAL);
    assert_eq!("safe self-start".parse::<AlignSelf>().unwrap(), AlignSelf::SAFE_SELF_START);
    assert_eq!("baseline".parse::<JustifyItems>().unwrap(), JustifyItems::BASELINE);
    assert_eq!("unsafe center".parse::<JustifySelf>().unwrap(), JustifySelf::CENTER);
    assert_eq!("space-between".parse::<AlignContent>().unwrap(), AlignContent::SPACE_BETWEEN);
    assert_eq!("safe flex-end".parse::<JustifyContent>().unwrap(), JustifyContent::SAFE_FLEX_END);
}

#[test]
fn rejects_invalid_overflow_position_combinations() {
    assert!("safe normal".parse::<AlignItems>().is_err());
    assert!("unsafe auto".parse::<AlignSelf>().is_err());
    assert!("safe stretch".parse::<JustifyItems>().is_err());
    assert!("unsafe baseline".parse::<JustifySelf>().is_err());
    assert!("safe space-around".parse::<AlignContent>().is_err());
    assert!("unsafe space-between".parse::<JustifyContent>().is_err());
}
