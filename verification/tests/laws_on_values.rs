use gummy::Direction::{Ltr, Rtl};
use gummy::{AlignContent, AlignItems, AlignSelf, JustifyContent, JustifyItems, JustifySelf};

const ALL_CONTENT: [AlignContent; 15] = [
    AlignContent::Normal,
    AlignContent::Start,
    AlignContent::End,
    AlignContent::FlexStart,
    AlignContent::FlexEnd,
    AlignContent::Center,
    AlignContent::Stretch,
    AlignContent::SpaceBetween,
    AlignContent::SpaceEvenly,
    AlignContent::SpaceAround,
    AlignContent::SafeStart,
    AlignContent::SafeEnd,
    AlignContent::SafeFlexStart,
    AlignContent::SafeFlexEnd,
    AlignContent::SafeCenter,
];

#[test]
fn unsafe_variant_strips_the_modifier_once() {
    for v in ALL_CONTENT {
        assert!(!v.unsafe_variant().is_safe());
        assert_eq!(v.unsafe_variant().unsafe_variant(), v.unsafe_variant());
        if !v.is_safe() {
            assert_eq!(v.unsafe_variant(), v);
        }
    }
    assert_eq!(AlignSelf::SAFE_SELF_END.unsafe_variant(), AlignSelf::SELF_END);
    assert_eq!(JustifyContent::SAFE_FLEX_START.unsafe_variant(), JustifyContent::FLEX_START);
}

#[test]
fn reversing_twice_gives_the_value_back_except_stretch() {
    for v in ALL_CONTENT {
        if v != AlignContent::Stretch {
            assert_eq!(v.reversed().reversed(), v);
        }
        assert_eq!(v.reversed().is_safe(), v.is_safe());
        assert_eq!(v.reversed().unsafe_variant(), v.unsafe_variant().reversed());
    }
    assert_eq!(AlignContent::STRETCH.reversed().reversed(), AlignContent::START);
    assert_eq!(JustifyContent::FLEX_START.reversed(), JustifyContent::FLEX_END);
}

#[test]
fn resolving_self_relative_values_is_complete_and_symmetric() {
    let resolved = AlignSelf::SAFE_SELF_START.resolve_self_relative(Rtl, Ltr, true);
    assert_eq!(resolved, AlignSelf::SAFE_END);
    assert_eq!(resolved.resolve_self_relative(Ltr, Rtl, true), resolved);
    assert_eq!(
        AlignSelf::SELF_END.resolve_self_relative(Ltr, Rtl, true),
        AlignSelf::SELF_END.resolve_self_relative(Rtl, Ltr, true)
    );
    assert_eq!(AlignSelf::CENTER.resolve_self_relative(Ltr, Rtl, true), AlignSelf::CENTER);
    assert_eq!(JustifySelf::SELF_START.resolve_self_relative(Rtl, Rtl, true), JustifySelf::START);
    assert_eq!(
        JustifySelf::SAFE_SELF_END.resolve_self_relative(Ltr, Rtl, true).unsafe_variant(),
        JustifySelf::SAFE_SELF_END.unsafe_variant().resolve_self_relative(Ltr, Rtl, true)
    );
}

#[test]
fn item_values_keep_their_safety_when_converted() {
    assert!(AlignSelf::from(AlignItems::SAFE_CENTER).is_safe());
    assert!(!JustifySelf::from(JustifyItems::CENTER).is_safe());
    assert_ne!(AlignSelf::from(AlignItems::NORMAL), AlignSelf::AUTO);
    assert_eq!(JustifySelf::from(JustifyItems::BASELINE), JustifySelf::BASELINE);
    let converted: AlignSelf = AlignItems::SAFE_END.into();
    assert_eq!(converted, AlignSelf::SAFE_END);
}

#[test]
fn unset_values_take_the_css_initial_value() {
    assert_eq!(AlignItems::or_initial(None), AlignItems::NORMAL);
    assert_eq!(AlignSelf::or_initial(None), AlignSelf::AUTO);
    assert_eq!(JustifyItems::or_initial(None), JustifyItems::default());
    assert_eq!(JustifySelf::or_initial(None), JustifySelf::AUTO);
    assert_eq!(AlignContent::or_initial(None), AlignContent::NORMAL);
    assert_eq!(JustifyContent::or_initial(None), JustifyContent::NORMAL);
    assert_eq!(AlignSelf::or_initial(Some(AlignSelf::SAFE_END)), AlignSelf::SAFE_END);
    assert_eq!(JustifyContent::or_initial(Some(JustifyContent::SPACE_EVENLY)), JustifyContent::SPACE_EVENLY);
}
