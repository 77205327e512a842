use gummy::compute::common::alignment::{
    align_content_offset, apply_align_content_fallback, apply_justify_content_fallback, justify_content_offset,
    resolve_align_self_safety, resolve_justify_self_safety,
};
use gummy::{AlignContent, AlignSelf, ContentOffset, JustifyContent, JustifySelf};

#[test]
fn safe_self_alignment_falls_back_to_start_on_overflow() {
    assert_eq!(resolve_align_self_safety(AlignSelf::SAFE_END, true), AlignSelf::START);
    assert_eq!(resolve_align_self_safety(AlignSelf::SAFE_END, false), AlignSelf::END);
    assert_eq!(resolve_align_self_safety(AlignSelf::END, true), AlignSelf::END);
    assert_eq!(resolve_justify_self_safety(JustifySelf::SAFE_CENTER, true), JustifySelf::START);
    assert_eq!(resolve_justify_self_safety(JustifySelf::SAFE_SELF_END, false), JustifySelf::SELF_END);
    assert_eq!(resolve_justify_self_safety(JustifySelf::AUTO, true), JustifySelf::AUTO);
}

#[test]
fn distributed_content_falls_back_with_one_item_or_no_space() {
    assert_eq!(apply_align_content_fallback(false, 1, AlignContent::SPACE_BETWEEN), AlignContent::FLEX_START);
    assert_eq!(apply_align_content_fallback(false, 1, AlignContent::SPACE_AROUND), AlignContent::CENTER);
    assert_eq!(apply_align_content_fallback(false, 3, AlignContent::SPACE_AROUND), AlignContent::SPACE_AROUND);
    assert_eq!(apply_align_content_fallback(true, 3, AlignContent::SPACE_EVENLY), AlignContent::START);
    assert_eq!(apply_align_content_fallback(true, 3, AlignContent::SAFE_CENTER), AlignContent::START);
    assert_eq!(apply_align_content_fallback(false, 3, AlignContent::SAFE_CENTER), AlignContent::CENTER);
    assert_eq!(apply_align_content_fallback(true, 3, AlignContent::CENTER), AlignContent::CENTER);
    assert_eq!(apply_justify_content_fallback(false, 0, JustifyContent::STRETCH), JustifyContent::FLEX_START);
    assert_eq!(apply_justify_content_fallback(true, 5, JustifyContent::SAFE_FLEX_END), JustifyContent::START);
    assert_eq!(apply_justify_content_fallback(false, 5, JustifyContent::NORMAL), JustifyContent::NORMAL);
    let once = apply_justify_content_fallback(false, 1, JustifyContent::SPACE_EVENLY);
    assert_eq!(apply_justify_content_fallback(false, 1, once), once);
}

#[test]
fn first_item_offsets_follow_the_keyword() {
    assert_eq!(align_content_offset(3, AlignContent::START, false, true, true), ContentOffset::Zero);
    assert_eq!(align_content_offset(3, AlignContent::FLEX_START, true, true, true), ContentOffset::FreeSpace);
    assert_eq!(align_content_offset(3, AlignContent::FLEX_END, false, true, true), ContentOffset::FreeSpace);
    assert_eq!(align_content_offset(3, AlignContent::CENTER, false, true, false), ContentOffset::HalfFreeSpace);
    assert_eq!(align_content_offset(3, AlignContent::SPACE_AROUND, false, true, true), ContentOffset::HalfShare(3));
    assert_eq!(align_content_offset(3, AlignContent::SPACE_AROUND, false, true, false), ContentOffset::HalfFreeSpace);
    assert_eq!(justify_content_offset(3, JustifyContent::SPACE_EVENLY, false, true, true), ContentOffset::Share(4));
    assert_eq!(justify_content_offset(3, JustifyContent::SPACE_BETWEEN, false, true, true), ContentOffset::Zero);
    assert_eq!(justify_content_offset(3, JustifyContent::FLEX_END, true, true, true), ContentOffset::Zero);
}

#[test]
fn later_item_offsets_add_the_gap_and_a_share() {
    assert_eq!(align_content_offset(3, AlignContent::END, false, false, true), ContentOffset::Gap);
    assert_eq!(align_content_offset(3, AlignContent::SPACE_BETWEEN, false, false, true), ContentOffset::GapAndShare(2));
    assert_eq!(justify_content_offset(3, JustifyContent::SPACE_AROUND, true, false, false), ContentOffset::GapAndShare(3));
    assert_eq!(justify_content_offset(3, JustifyContent::SPACE_EVENLY, false, false, true), ContentOffset::GapAndShare(4));
    assert_eq!(justify_content_offset(1, JustifyContent::SPACE_BETWEEN, false, false, true), ContentOffset::GapAndShare(0));
}

fn length(offset: ContentOffset, free_space: f64, gap: f64) -> f64 {
    match offset {
        ContentOffset::Zero => 0.0,
        ContentOffset::FreeSpace => free_space,
        ContentOffset::HalfFreeSpace => free_space / 2.0,
        ContentOffset::HalfShare(n) => free_space / n as f64 / 2.0,
        ContentOffset::Share(n) => free_space / n as f64,
        ContentOffset::Gap => gap,
        ContentOffset::GapAndShare(n) => gap + free_space.max(0.0) / n as f64,
    }
}

#[test]
fn distributed_keywords_share_out_the_free_space() {
    let free_space = 120.0;
    let n = 4;
    for mode in [AlignContent::SPACE_BETWEEN, AlignContent::SPACE_AROUND, AlignContent::SPACE_EVENLY] {
        let first = length(align_content_offset(n, mode, false, true, true), free_space, 0.0);
        let between = length(align_content_offset(n, mode, false, false, true), free_space, 0.0);
        let last = if mode == AlignContent::SPACE_BETWEEN { 0.0 } else { first };
        assert_eq!(first + (n as f64 - 1.0) * between + last, free_space);
    }
    assert_eq!(length(justify_content_offset(n, JustifyContent::SPACE_BETWEEN, false, true, true), free_space, 0.0), 0.0);
    assert_eq!(length(justify_content_offset(n, JustifyContent::SPACE_EVENLY, false, true, true), free_space, 0.0), 24.0);
    assert_eq!(length(justify_content_offset(n, JustifyContent::SPACE_EVENLY, false, false, true), free_space, 0.0), 24.0);
    assert_eq!(length(justify_content_offset(n, JustifyContent::SPACE_AROUND, false, true, true), free_space, 0.0), 15.0);
    assert_eq!(length(justify_content_offset(n, JustifyContent::SPACE_AROUND, false, false, true), free_space, 0.0), 30.0);
}
