use vstd::prelude::*;

use crate::css::css_leading_ident;
use crate::style::alignment::{AlignContent, AlignItems, AlignSelf, JustifyContent, JustifyItems, JustifySelf};
use crate::style::parse::{ascii_lower_code, from_css_spec, keyword_of, keyword_spec, spells_keyword, CssKeyword, CssKeywordValue};

verus! {

/// Whether the first token of `text` is an identifier that spells the keyword `k`.
pub open spec fn starts_with_keyword(text: Seq<char>, k: CssKeyword) -> bool {
    match css_leading_ident(text) {
        Some((first, _)) => keyword_of(first) == Some(k),
        None => false,
    }
}

/// An identifier names a keyword exactly when it spells it, ignoring ASCII case; no identifier
/// spells two keywords.
pub proof fn keyword_of_names_the_spelled_keyword(s: Seq<char>, k: CssKeyword)
    ensures
        keyword_of(s) == Some(k) <==> spells_keyword(s, k),
{
    if spells_keyword(s, k) {
        assert forall|j: CssKeyword| #[trigger] spells_keyword(s, j) implies j == k by {
            let kt = crate::style::parse::keyword_text(k);
            let jt = crate::style::parse::keyword_text(j);
            assert(kt.len() == jt.len());
            if j != k {
                assert(exists|i: int| 0 <= i < kt.len() && kt[i] != jt[i]) by {
                    assert(kt.len() > 0);
                    if kt[0] == jt[0] {
                        if kt.len() > 1 && kt[1] == jt[1] {
                            if kt.len() > 2 && kt[2] == jt[2] {
                                if kt.len() > 5 && kt[5] == jt[5] {
                                    assert(kt.len() > 6 && kt[6] != jt[6]);
                                }
                            }
                        }
                    }
                }
                let i = choose|i: int| 0 <= i < kt.len() && kt[i] != jt[i];
                assert(ascii_lower_code(s[i]) == kt[i] as int);
                assert(ascii_lower_code(s[i]) == jt[i] as int);
            }
        }
    }
}

/// Keywords are matched ignoring ASCII case: two identifiers that agree once ASCII letters are
/// made lower-case name the same keyword.
pub proof fn keyword_of_ignores_ascii_case(s1: Seq<char>, s2: Seq<char>)
    requires
        s1.len() == s2.len(),
        forall|i: int| 0 <= i < s1.len() ==> ascii_lower_code(#[trigger] s1[i]) == ascii_lower_code(s2[i]),
    ensures
        keyword_of(s1) == keyword_of(s2),
{
    assert forall|k: CssKeyword| spells_keyword(s1, k) <==> #[trigger] spells_keyword(s2, k) by {
        if spells_keyword(s1, k) {
            assert forall|i: int| 0 <= i < s2.len() implies ascii_lower_code(#[trigger] s2[i]) == crate::style::parse::keyword_text(k)[i] as int by {
                assert(ascii_lower_code(s1[i]) == ascii_lower_code(s2[i]));
            }
        }
        if spells_keyword(s2, k) {
            assert forall|i: int| 0 <= i < s1.len() implies ascii_lower_code(#[trigger] s1[i]) == crate::style::parse::keyword_text(k)[i] as int by {
                assert(ascii_lower_code(s1[i]) == ascii_lower_code(s2[i]));
            }
        }
    }
}

/// `align-items` accepts `auto` only where it is a self-alignment property; `safe` and `unsafe`
/// never stand alone and only come before a positional keyword; `safe` gives a value that carries
/// the modifier, and `unsafe` gives the same value as the keyword alone.
pub proof fn align_items_keyword_laws(k: CssKeyword)
    ensures
        <AlignItems as CssKeywordValue>::keyword_value(CssKeyword::Auto) is None,
        <AlignItems as CssKeywordValue>::keyword_value(CssKeyword::Safe) is None,
        <AlignItems as CssKeywordValue>::keyword_value(CssKeyword::Unsafe) is None,
        <AlignItems as CssKeywordValue>::positioned_value(true, k) is Some <==> <AlignItems as CssKeywordValue>::positioned_value(false, k) is Some,
        <AlignItems as CssKeywordValue>::positioned_value(true, k) matches Some(v) ==> v.is_safe(),
        <AlignItems as CssKeywordValue>::positioned_value(false, k) matches Some(v) ==> !v.is_safe() && <AlignItems as CssKeywordValue>::keyword_value(k) == Some(v),
        (k == CssKeyword::Normal || k == CssKeyword::Auto || k == CssKeyword::Baseline || k == CssKeyword::Stretch
            || k == CssKeyword::SpaceBetween || k == CssKeyword::SpaceAround || k == CssKeyword::SpaceEvenly)
            ==> <AlignItems as CssKeywordValue>::positioned_value(true, k) is None,
        <AlignItems as CssKeywordValue>::keyword_value(k) matches Some(v) ==> !v.is_safe(),
{
}

/// A parsed `align-items` value carries the `safe` modifier exactly where it was written
/// with `safe`.
pub proof fn align_items_is_safe_exactly_when_written_safe(text: Seq<char>)
    ensures
        match from_css_spec::<AlignItems>(text) {
            Ok((v, _)) => v.is_safe() <==> starts_with_keyword(text, CssKeyword::Safe),
            Err(_) => true,
        },
{
    align_items_keyword_laws(CssKeyword::Safe);
    if let Some((first, rest)) = css_leading_ident(text) {
        if let Some(k) = keyword_of(first) {
            align_items_keyword_laws(k);
        }
        if let Some((position, after)) = css_leading_ident(rest) {
            if let Some(k) = keyword_of(position) {
                align_items_keyword_laws(k);
            }
        }
    }
}

/// A `align-items` value written as `unsafe` and a keyword is the value of the keyword alone.
pub proof fn align_items_unsafe_is_the_bare_keyword(text: Seq<char>, first: Seq<char>, rest: Seq<char>, position: Seq<char>, after: Seq<char>)
    ensures
        (css_leading_ident(text) == Some((first, rest)) && keyword_of(first) == Some(CssKeyword::Unsafe)
            && css_leading_ident(rest) == Some((position, after)) && from_css_spec::<AlignItems>(text) is Ok)
            ==> from_css_spec::<AlignItems>(text) == keyword_spec::<AlignItems>(position, after),
{
    if let Some(k) = keyword_of(position) {
        align_items_keyword_laws(k);
    }
}

/// `align-self` accepts `auto` only where it is a self-alignment property; `safe` and `unsafe`
/// never stand alone and only come before a positional keyword; `safe` gives a value that carries
/// the modifier, and `unsafe` gives the same value as the keyword alone.
pub proof fn align_self_keyword_laws(k: CssKeyword)
    ensures
        <AlignSelf as CssKeywordValue>::keyword_value(CssKeyword::Auto) == Some(AlignSelf::Auto),
        <AlignSelf as CssKeywordValue>::keyword_value(CssKeyword::Safe) is None,
        <AlignSelf as CssKeywordValue>::keyword_value(CssKeyword::Unsafe) is None,
        <AlignSelf as CssKeywordValue>::positioned_value(true, k) is Some <==> <AlignSelf as CssKeywordValue>::positioned_value(false, k) is Some,
        <AlignSelf as CssKeywordValue>::positioned_value(true, k) matches Some(v) ==> v.is_safe(),
        <AlignSelf as CssKeywordValue>::positioned_value(false, k) matches Some(v) ==> !v.is_safe() && <AlignSelf as CssKeywordValue>::keyword_value(k) == Some(v),
        (k == CssKeyword::Normal || k == CssKeyword::Auto || k == CssKeyword::Baseline || k == CssKeyword::Stretch
            || k == CssKeyword::SpaceBetween || k == CssKeyword::SpaceAround || k == CssKeyword::SpaceEvenly)
            ==> <AlignSelf as CssKeywordValue>::positioned_value(true, k) is None,
        <AlignSelf as CssKeywordValue>::keyword_value(k) matches Some(v) ==> !v.is_safe(),
{
}

/// A parsed `align-self` value carries the `safe` modifier exactly where it was written
/// with `safe`.
pub proof fn align_self_is_safe_exactly_when_written_safe(text: Seq<char>)
    ensures
        match from_css_spec::<AlignSelf>(text) {
            Ok((v, _)) => v.is_safe() <==> starts_with_keyword(text, CssKeyword::Safe),
            Err(_) => true,
        },
{
    align_self_keyword_laws(CssKeyword::Safe);
    if let Some((first, rest)) = css_leading_ident(text) {
        if let Some(k) = keyword_of(first) {
            align_self_keyword_laws(k);
        }
        if let Some((position, after)) = css_leading_ident(rest) {
            if let Some(k) = keyword_of(position) {
                align_self_keyword_laws(k);
            }
        }
    }
}

/// A `align-self` value written as `unsafe` and a keyword is the value of the keyword alone.
pub proof fn align_self_unsafe_is_the_bare_keyword(text: Seq<char>, first: Seq<char>, rest: Seq<char>, position: Seq<char>, after: Seq<char>)
    ensures
        (css_leading_ident(text) == Some((first, rest)) && keyword_of(first) == Some(CssKeyword::Unsafe)
            && css_leading_ident(rest) == Some((position, after)) && from_css_spec::<AlignSelf>(text) is Ok)
            ==> from_css_spec::<AlignSelf>(text) == keyword_spec::<AlignSelf>(position, after),
{
    if let Some(k) = keyword_of(position) {
        align_self_keyword_laws(k);
    }
}

/// `justify-items` accepts `auto` only where it is a self-alignment property; `safe` and `unsafe`
/// never stand alone and only come before a positional keyword; `safe` gives a value that carries
/// the modifier, and `unsafe` gives the same value as the keyword alone.
pub proof fn justify_items_keyword_laws(k: CssKeyword)
    ensures
        <JustifyItems as CssKeywordValue>::keyword_value(CssKeyword::Auto) is None,
        <JustifyItems as CssKeywordValue>::keyword_value(CssKeyword::Safe) is None,
        <JustifyItems as CssKeywordValue>::keyword_value(CssKeyword::Unsafe) is None,
        <JustifyItems as CssKeywordValue>::positioned_value(true, k) is Some <==> <JustifyItems as CssKeywordValue>::positioned_value(false, k) is Some,
        <JustifyItems as CssKeywordValue>::positioned_value(true, k) matches Some(v) ==> v.is_safe(),
        <JustifyItems as CssKeywordValue>::positioned_value(false, k) matches Some(v) ==> !v.is_safe() && <JustifyItems as CssKeywordValue>::keyword_value(k) == Some(v),
        (k == CssKeyword::Normal || k == CssKeyword::Auto || k == CssKeyword::Baseline || k == CssKeyword::Stretch
            || k == CssKeyword::SpaceBetween || k == CssKeyword::SpaceAround || k == CssKeyword::SpaceEvenly)
            ==> <JustifyItems as CssKeywordValue>::positioned_value(true, k) is None,
        <JustifyItems as CssKeywordValue>::keyword_value(k) matches Some(v) ==> !v.is_safe(),
{
}

/// A parsed `justify-items` value carries the `safe` modifier exactly where it was written
/// with `safe`.
pub proof fn justify_items_is_safe_exactly_when_written_safe(text: Seq<char>)
    ensures
        match from_css_spec::<JustifyItems>(text) {
            Ok((v, _)) => v.is_safe() <==> starts_with_keyword(text, CssKeyword::Safe),
            Err(_) => true,
        },
{
    justify_items_keyword_laws(CssKeyword::Safe);
    if let Some((first, rest)) = css_leading_ident(text) {
        if let Some(k) = keyword_of(first) {
            justify_items_keyword_laws(k);
        }
        if let Some((position, after)) = css_leading_ident(rest) {
            if let Some(k) = keyword_of(position) {
                justify_items_keyword_laws(k);
            }
        }
    }
}

/// A `justify-items` value written as `unsafe` and a keyword is the value of the keyword alone.
pub proof fn justify_items_unsafe_is_the_bare_keyword(text: Seq<char>, first: Seq<char>, rest: Seq<char>, position: Seq<char>, after: Seq<char>)
    ensures
        (css_leading_ident(text) == Some((first, rest)) && keyword_of(first) == Some(CssKeyword::Unsafe)
            && css_leading_ident(rest) == Some((position, after)) && from_css_spec::<JustifyItems>(text) is Ok)
            ==> from_css_spec::<JustifyItems>(text) == keyword_spec::<JustifyItems>(position, after),
{
    if let Some(k) = keyword_of(position) {
        justify_items_keyword_laws(k);
    }
}

/// `justify-self` accepts `auto` only where it is a self-alignment property; `safe` and `unsafe`
/// never stand alone and only come before a positional keyword; `safe` gives a value that carries
/// the modifier, and `unsafe` gives the same value as the keyword alone.
pub proof fn justify_self_keyword_laws(k: CssKeyword)
    ensures
        <JustifySelf as CssKeywordValue>::keyword_value(CssKeyword::Auto) == Some(JustifySelf::Auto),
        <JustifySelf as CssKeywordValue>::keyword_value(CssKeyword::Safe) is None,
        <JustifySelf as CssKeywordValue>::keyword_value(CssKeyword::Unsafe) is None,
        <JustifySelf as CssKeywordValue>::positioned_value(true, k) is Some <==> <JustifySelf as CssKeywordValue>::positioned_value(false, k) is Some,
        <JustifySelf as CssKeywordValue>::positioned_value(true, k) matches Some(v) ==> v.is_safe(),
        <JustifySelf as CssKeywordValue>::positioned_value(false, k) matches Some(v) ==> !v.is_safe() && <JustifySelf as CssKeywordValue>::keyword_value(k) == Some(v),
        (k == CssKeyword::Normal || k == CssKeyword::Auto || k == CssKeyword::Baseline || k == CssKeyword::Stretch
            || k == CssKeyword::SpaceBetween || k == CssKeyword::SpaceAround || k == CssKeyword::SpaceEvenly)
            ==> <JustifySelf as CssKeywordValue>::positioned_value(true, k) is None,
        <JustifySelf as CssKeywordValue>::keyword_value(k) matches Some(v) ==> !v.is_safe(),
{
}

/// A parsed `justify-self` value carries the `safe` modifier exactly where it was written
/// with `safe`.
pub proof fn justify_self_is_safe_exactly_when_written_safe(text: Seq<char>)
    ensures
        match from_css_spec::<JustifySelf>(text) {
            Ok((v, _)) => v.is_safe() <==> starts_with_keyword(text, CssKeyword::Safe),
            Err(_) => true,
        },
{
    justify_self_keyword_laws(CssKeyword::Safe);
    if let Some((first, rest)) = css_leading_ident(text) {
        if let Some(k) = keyword_of(first) {
            justify_self_keyword_laws(k);
        }
        if let Some((position, after)) = css_leading_ident(rest) {
            if let Some(k) = keyword_of(position) {
                justify_self_keyword_laws(k);
            }
        }
    }
}

/// A `justify-self` value written as `unsafe` and a keyword is the value of the keyword alone.
pub proof fn justify_self_unsafe_is_the_bare_keyword(text: Seq<char>, first: Seq<char>, rest: Seq<char>, position: Seq<char>, after: Seq<char>)
    ensures
        (css_leading_ident(text) == Some((first, rest)) && keyword_of(first) == Some(CssKeyword::Unsafe)
            && css_leading_ident(rest) == Some((position, after)) && from_css_spec::<JustifySelf>(text) is Ok)
            ==> from_css_spec::<JustifySelf>(text) == keyword_spec::<JustifySelf>(position, after),
{
    if let Some(k) = keyword_of(position) {
        justify_self_keyword_laws(k);
    }
}

/// `align-content` accepts `auto` only where it is a self-alignment property; `safe` and `unsafe`
/// never stand alone and only come before a positional keyword; `safe` gives a value that carries
/// the modifier, and `unsafe` gives the same value as the keyword alone.
pub proof fn align_content_keyword_laws(k: CssKeyword)
    ensures
        <AlignContent as CssKeywordValue>::keyword_value(CssKeyword::Auto) is None,
        <AlignContent as CssKeywordValue>::keyword_value(CssKeyword::Safe) is None,
        <AlignContent as CssKeywordValue>::keyword_value(CssKeyword::Unsafe) is None,
        <AlignContent as CssKeywordValue>::positioned_value(true, k) is Some <==> <AlignContent as CssKeywordValue>::positioned_value(false, k) is Some,
        <AlignContent as CssKeywordValue>::positioned_value(true, k) matches Some(v) ==> v.is_safe(),
        <AlignContent as CssKeywordValue>::positioned_value(false, k) matches Some(v) ==> !v.is_safe() && <AlignContent as CssKeywordValue>::keyword_value(k) == Some(v),
        (k == CssKeyword::Normal || k == CssKeyword::Auto || k == CssKeyword::Baseline || k == CssKeyword::Stretch
            || k == CssKeyword::SpaceBetween || k == CssKeyword::SpaceAround || k == CssKeyword::SpaceEvenly)
            ==> <AlignContent as CssKeywordValue>::positioned_value(true, k) is None,
        <AlignContent as CssKeywordValue>::keyword_value(k) matches Some(v) ==> !v.is_safe(),
{
}

/// A parsed `align-content` value carries the `safe` modifier exactly where it was written
/// with `safe`.
pub proof fn align_content_is_safe_exactly_when_written_safe(text: Seq<char>)
    ensures
        match from_css_spec::<AlignContent>(text) {
            Ok((v, _)) => v.is_safe() <==> starts_with_keyword(text, CssKeyword::Safe),
            Err(_) => true,
        },
{
    align_content_keyword_laws(CssKeyword::Safe);
    if let Some((first, rest)) = css_leading_ident(text) {
        if let Some(k) = keyword_of(first) {
            align_content_keyword_laws(k);
        }
        if let Some((position, after)) = css_leading_ident(rest) {
            if let Some(k) = keyword_of(position) {
                align_content_keyword_laws(k);
            }
        }
    }
}

/// A `align-content` value written as `unsafe` and a keyword is the value of the keyword alone.
pub proof fn align_content_unsafe_is_the_bare_keyword(text: Seq<char>, first: Seq<char>, rest: Seq<char>, position: Seq<char>, after: Seq<char>)
    ensures
        (css_leading_ident(text) == Some((first, rest)) && keyword_of(first) == Some(CssKeyword::Unsafe)
            && css_leading_ident(rest) == Some((position, after)) && from_css_spec::<AlignContent>(text) is Ok)
            ==> from_css_spec::<AlignContent>(text) == keyword_spec::<AlignContent>(position, after),
{
    if let Some(k) = keyword_of(position) {
        align_content_keyword_laws(k);
    }
}

/// `justify-content` accepts `auto` only where it is a self-alignment property; `safe` and `unsafe`
/// never stand alone and only come before a positional keyword; `safe` gives a value that carries
/// the modifier, and `unsafe` gives the same value as the keyword alone.
pub proof fn justify_content_keyword_laws(k: CssKeyword)
    ensures
        <JustifyContent as CssKeywordValue>::keyword_value(CssKeyword::Auto) is None,
        <JustifyContent as CssKeywordValue>::keyword_value(CssKeyword::Safe) is None,
        <JustifyContent as CssKeywordValue>::keyword_value(CssKeyword::Unsafe) is None,
        <JustifyContent as CssKeywordValue>::positioned_value(true, k) is Some <==> <JustifyContent as CssKeywordValue>::positioned_value(false, k) is Some,
        <JustifyContent as CssKeywordValue>::positioned_value(true, k) matches Some(v) ==> v.is_safe(),
        <JustifyContent as CssKeywordValue>::positioned_value(false, k) matches Some(v) ==> !v.is_safe() && <JustifyContent as CssKeywordValue>::keyword_value(k) == Some(v),
        (k == CssKeyword::Normal || k == CssKeyword::Auto || k == CssKeyword::Baseline || k == CssKeyword::Stretch
            || k == CssKeyword::SpaceBetween || k == CssKeyword::SpaceAround || k == CssKeyword::SpaceEvenly)
            ==> <JustifyContent as CssKeywordValue>::positioned_value(true, k) is None,
        <JustifyContent as CssKeywordValue>::keyword_value(k) matches Some(v) ==> !v.is_safe(),
{
}

/// A parsed `justify-content` value carries the `safe` modifier exactly where it was written
/// with `safe`.
pub proof fn justify_content_is_safe_exactly_when_written_safe(text: Seq<char>)
    ensures
        match from_css_spec::<JustifyContent>(text) {
            Ok((v, _)) => v.is_safe() <==> starts_with_keyword(text, CssKeyword::Safe),
            Err(_) => true,
        },
{
    justify_content_keyword_laws(CssKeyword::Safe);
    if let Some((first, rest)) = css_leading_ident(text) {
        if let Some(k) = keyword_of(first) {
            justify_content_keyword_laws(k);
        }
        if let Some((position, after)) = css_leading_ident(rest) {
            if let Some(k) = keyword_of(position) {
                justify_content_keyword_laws(k);
            }
        }
    }
}

/// A `justify-content` value written as `unsafe` and a keyword is the value of the keyword alone.
pub proof fn justify_content_unsafe_is_the_bare_keyword(text: Seq<char>, first: Seq<char>, rest: Seq<char>, position: Seq<char>, after: Seq<char>)
    ensures
        (css_leading_ident(text) == Some((first, rest)) && keyword_of(first) == Some(CssKeyword::Unsafe)
            && css_leading_ident(rest) == Some((position, after)) && from_css_spec::<JustifyContent>(text) is Ok)
            ==> from_css_spec::<JustifyContent>(text) == keyword_spec::<JustifyContent>(position, after),
{
    if let Some(k) = keyword_of(position) {
        justify_content_keyword_laws(k);
    }
}

} // verus!
