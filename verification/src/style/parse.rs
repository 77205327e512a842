//! Parsing of the alignment properties' CSS syntax: an optional `safe`/`unsafe` overflow
//! position followed by a keyword, matched ASCII case-insensitively.
use vstd::prelude::*;
use vstd::string::*;

use crate::css::{css_leading_ident, is_css_blank, is_exhausted, leading_ident};
use crate::style::alignment::{AlignContent, AlignItems, AlignSelf, JustifyContent, JustifyItems, JustifySelf};

verus! {

/// The keywords of the alignment properties.
#[derive(Copy, Clone, PartialEq, Eq, Debug, Structural)]
pub enum CssKeyword {
    /// `safe`
    Safe,
    /// `unsafe`
    Unsafe,
    /// `auto`
    Auto,
    /// `normal`
    Normal,
    /// `start`
    Start,
    /// `end`
    End,
    /// `flex-start`
    FlexStart,
    /// `flex-end`
    FlexEnd,
    /// `self-start`
    SelfStart,
    /// `self-end`
    SelfEnd,
    /// `center`
    Center,
    /// `baseline`
    Baseline,
    /// `stretch`
    Stretch,
    /// `space-between`
    SpaceBetween,
    /// `space-evenly`
    SpaceEvenly,
    /// `space-around`
    SpaceAround,
}

/// The lower-case spelling of a keyword.
pub open spec fn keyword_text(k: CssKeyword) -> Seq<char> {
    match k {
        CssKeyword::Safe => seq!['s', 'a', 'f', 'e'],
        CssKeyword::Unsafe => seq!['u', 'n', 's', 'a', 'f', 'e'],
        CssKeyword::Auto => seq!['a', 'u', 't', 'o'],
        CssKeyword::Normal => seq!['n', 'o', 'r', 'm', 'a', 'l'],
        CssKeyword::Start => seq!['s', 't', 'a', 'r', 't'],
        CssKeyword::End => seq!['e', 'n', 'd'],
        CssKeyword::FlexStart => seq!['f', 'l', 'e', 'x', '-', 's', 't', 'a', 'r', 't'],
        CssKeyword::FlexEnd => seq!['f', 'l', 'e', 'x', '-', 'e', 'n', 'd'],
        CssKeyword::SelfStart => seq!['s', 'e', 'l', 'f', '-', 's', 't', 'a', 'r', 't'],
        CssKeyword::SelfEnd => seq!['s', 'e', 'l', 'f', '-', 'e', 'n', 'd'],
        CssKeyword::Center => seq!['c', 'e', 'n', 't', 'e', 'r'],
        CssKeyword::Baseline => seq!['b', 'a', 's', 'e', 'l', 'i', 'n', 'e'],
        CssKeyword::Stretch => seq!['s', 't', 'r', 'e', 't', 'c', 'h'],
        CssKeyword::SpaceBetween => seq!['s', 'p', 'a', 'c', 'e', '-', 'b', 'e', 't', 'w', 'e', 'e', 'n'],
        CssKeyword::SpaceEvenly => seq!['s', 'p', 'a', 'c', 'e', '-', 'e', 'v', 'e', 'n', 'l', 'y'],
        CssKeyword::SpaceAround => seq!['s', 'p', 'a', 'c', 'e', '-', 'a', 'r', 'o', 'u', 'n', 'd'],
    }
}

/// The code of `c` with ASCII upper-case letters made lower-case.
pub open spec fn ascii_lower_code(c: char) -> int {
    if 65 <= c as int && c as int <= 90 {
        c as int + 32
    } else {
        c as int
    }
}

/// Whether `s` spells the keyword `k`, ignoring ASCII case.
pub open spec fn spells_keyword(s: Seq<char>, k: CssKeyword) -> bool {
    &&& s.len() == keyword_text(k).len()
    &&& forall|i: int| 0 <= i < s.len() ==> ascii_lower_code(#[trigger] s[i]) == keyword_text(k)[i] as int
}

/// The keyword that `s` spells, ignoring ASCII case.
pub open spec fn keyword_of(s: Seq<char>) -> Option<CssKeyword> {
    if spells_keyword(s, CssKeyword::Safe) {
        Some(CssKeyword::Safe)
    } else if spells_keyword(s, CssKeyword::Unsafe) {
        Some(CssKeyword::Unsafe)
    } else if spells_keyword(s, CssKeyword::Auto) {
        Some(CssKeyword::Auto)
    } else if spells_keyword(s, CssKeyword::Normal) {
        Some(CssKeyword::Normal)
    } else if spells_keyword(s, CssKeyword::Start) {
        Some(CssKeyword::Start)
    } else if spells_keyword(s, CssKeyword::End) {
        Some(CssKeyword::End)
    } else if spells_keyword(s, CssKeyword::FlexStart) {
        Some(CssKeyword::FlexStart)
    } else if spells_keyword(s, CssKeyword::FlexEnd) {
        Some(CssKeyword::FlexEnd)
    } else if spells_keyword(s, CssKeyword::SelfStart) {
        Some(CssKeyword::SelfStart)
    } else if spells_keyword(s, CssKeyword::SelfEnd) {
        Some(CssKeyword::SelfEnd)
    } else if spells_keyword(s, CssKeyword::Center) {
        Some(CssKeyword::Center)
    } else if spells_keyword(s, CssKeyword::Baseline) {
        Some(CssKeyword::Baseline)
    } else if spells_keyword(s, CssKeyword::Stretch) {
        Some(CssKeyword::Stretch)
    } else if spells_keyword(s, CssKeyword::SpaceBetween) {
        Some(CssKeyword::SpaceBetween)
    } else if spells_keyword(s, CssKeyword::SpaceEvenly) {
        Some(CssKeyword::SpaceEvenly)
    } else if spells_keyword(s, CssKeyword::SpaceAround) {
        Some(CssKeyword::SpaceAround)
    } else {
        None
    }
}

fn keyword_chars(k: CssKeyword) -> (r: Vec<char>)
    ensures
        r@ == keyword_text(k),
{
    match k {
        CssKeyword::Safe => vec!['s', 'a', 'f', 'e'],
        CssKeyword::Unsafe => vec!['u', 'n', 's', 'a', 'f', 'e'],
        CssKeyword::Auto => vec!['a', 'u', 't', 'o'],
        CssKeyword::Normal => vec!['n', 'o', 'r', 'm', 'a', 'l'],
        CssKeyword::Start => vec!['s', 't', 'a', 'r', 't'],
        CssKeyword::End => vec!['e', 'n', 'd'],
        CssKeyword::FlexStart => vec!['f', 'l', 'e', 'x', '-', 's', 't', 'a', 'r', 't'],
        CssKeyword::FlexEnd => vec!['f', 'l', 'e', 'x', '-', 'e', 'n', 'd'],
        CssKeyword::SelfStart => vec!['s', 'e', 'l', 'f', '-', 's', 't', 'a', 'r', 't'],
        CssKeyword::SelfEnd => vec!['s', 'e', 'l', 'f', '-', 'e', 'n', 'd'],
        CssKeyword::Center => vec!['c', 'e', 'n', 't', 'e', 'r'],
        CssKeyword::Baseline => vec!['b', 'a', 's', 'e', 'l', 'i', 'n', 'e'],
        CssKeyword::Stretch => vec!['s', 't', 'r', 'e', 't', 'c', 'h'],
        CssKeyword::SpaceBetween => vec!['s', 'p', 'a', 'c', 'e', '-', 'b', 'e', 't', 'w', 'e', 'e', 'n'],
        CssKeyword::SpaceEvenly => vec!['s', 'p', 'a', 'c', 'e', '-', 'e', 'v', 'e', 'n', 'l', 'y'],
        CssKeyword::SpaceAround => vec!['s', 'p', 'a', 'c', 'e', '-', 'a', 'r', 'o', 'u', 'n', 'd'],
    }
}

/// Whether `ident` spells the keyword `k`, ignoring ASCII case.
pub fn spells(ident: &str, k: CssKeyword) -> (r: bool)
    ensures
        r == spells_keyword(ident@, k),
{
    let text = keyword_chars(k);
    let n = ident.unicode_len();
    if n != text.len() {
        return false;
    }
    let mut i: usize = 0;
    while i < n
        invariant
            n == ident@.len(),
            n == text@.len(),
            text@ == keyword_text(k),
            i <= n,
            forall|j: int| 0 <= j < i ==> ascii_lower_code(#[trigger] ident@[j]) == keyword_text(k)[j] as int,
        decreases n - i,
    {
        let c = ident.get_char(i);
        let code = c as u32;
        let lowered: u32 = if 65 <= code && code <= 90 {
            code + 32
        } else {
            code
        };
        if lowered != text[i] as u32 {
            return false;
        }
        i = i + 1;
    }
    true
}

/// The keyword that `ident` spells, ignoring ASCII case.
pub fn keyword(ident: &str) -> (r: Option<CssKeyword>)
    ensures
        r == keyword_of(ident@),
{
    if spells(ident, CssKeyword::Safe) {
        Some(CssKeyword::Safe)
    } else if spells(ident, CssKeyword::Unsafe) {
        Some(CssKeyword::Unsafe)
    } else if spells(ident, CssKeyword::Auto) {
        Some(CssKeyword::Auto)
    } else if spells(ident, CssKeyword::Normal) {
        Some(CssKeyword::Normal)
    } else if spells(ident, CssKeyword::Start) {
        Some(CssKeyword::Start)
    } else if spells(ident, CssKeyword::End) {
        Some(CssKeyword::End)
    } else if spells(ident, CssKeyword::FlexStart) {
        Some(CssKeyword::FlexStart)
    } else if spells(ident, CssKeyword::FlexEnd) {
        Some(CssKeyword::FlexEnd)
    } else if spells(ident, CssKeyword::SelfStart) {
        Some(CssKeyword::SelfStart)
    } else if spells(ident, CssKeyword::SelfEnd) {
        Some(CssKeyword::SelfEnd)
    } else if spells(ident, CssKeyword::Center) {
        Some(CssKeyword::Center)
    } else if spells(ident, CssKeyword::Baseline) {
        Some(CssKeyword::Baseline)
    } else if spells(ident, CssKeyword::Stretch) {
        Some(CssKeyword::Stretch)
    } else if spells(ident, CssKeyword::SpaceBetween) {
        Some(CssKeyword::SpaceBetween)
    } else if spells(ident, CssKeyword::SpaceEvenly) {
        Some(CssKeyword::SpaceEvenly)
    } else if spells(ident, CssKeyword::SpaceAround) {
        Some(CssKeyword::SpaceAround)
    } else {
        None
    }
}

/// Why a piece of CSS is not a value of an alignment property.
#[derive(Debug)]
pub enum CssParseError {
    /// An identifier was expected and the input ended or held another token.
    ExpectedIdent,
    /// An identifier that is not accepted at this place.
    UnexpectedIdent(String),
    /// Input is left after the value.
    TrailingInput,
}

/// The model of a [`CssParseError`].
pub enum CssParseErrorView {
    /// An identifier was expected and the input ended or held another token.
    ExpectedIdent,
    /// An identifier that is not accepted at this place.
    UnexpectedIdent(Seq<char>),
    /// Input is left after the value.
    TrailingInput,
}

impl View for CssParseError {
    type V = CssParseErrorView;

    open spec fn view(&self) -> CssParseErrorView {
        match self {
            CssParseError::ExpectedIdent => CssParseErrorView::ExpectedIdent,
            CssParseError::UnexpectedIdent(ident) => CssParseErrorView::UnexpectedIdent(ident@),
            CssParseError::TrailingInput => CssParseErrorView::TrailingInput,
        }
    }
}

/// A property value that is written as an optional overflow position and a keyword.
pub trait CssKeywordValue: Sized {
    /// The value that the keyword `k` names on its own, where the property accepts it.
    spec fn keyword_value(k: CssKeyword) -> Option<Self>;

    /// The value that `safe` (where `safe`) or `unsafe` (otherwise) followed by the keyword `k`
    /// names, where the property accepts it.
    spec fn positioned_value(safe: bool, k: CssKeyword) -> Option<Self>;

    /// The value that the keyword `k` names on its own.
    fn from_keyword(k: CssKeyword) -> (r: Option<Self>)
        ensures
            r == Self::keyword_value(k),
    ;

    /// The value that `safe` (where `safe`) or `unsafe` (otherwise) followed by `k` names.
    fn from_positioned_keyword(safe: bool, k: CssKeyword) -> (r: Option<Self>)
        ensures
            r == Self::positioned_value(safe, k),
    ;
}

/// The value named by the identifier `position` after `safe` or `unsafe`, with the text after it.
pub open spec fn positioned_spec<T: CssKeywordValue>(safe: bool, position: Seq<char>, rest: Seq<char>) -> Result<(T, Seq<char>), CssParseErrorView> {
    match keyword_of(position) {
        Some(k) => match T::positioned_value(safe, k) {
            Some(v) => Ok((v, rest)),
            None => Err(CssParseErrorView::UnexpectedIdent(position)),
        },
        None => Err(CssParseErrorView::UnexpectedIdent(position)),
    }
}

/// The value named by the identifier `first` at the start of a value, where it is not an
/// overflow position, with the text after it.
pub open spec fn keyword_spec<T: CssKeywordValue>(first: Seq<char>, rest: Seq<char>) -> Result<(T, Seq<char>), CssParseErrorView> {
    match keyword_of(first) {
        Some(k) => match T::keyword_value(k) {
            Some(v) => Ok((v, rest)),
            None => Err(CssParseErrorView::UnexpectedIdent(first)),
        },
        None => Err(CssParseErrorView::UnexpectedIdent(first)),
    }
}

/// The value at the start of `text` and the text after it: a first identifier `safe` or `unsafe`
/// is followed by a second identifier naming the position; any other first identifier names the
/// value on its own.
pub open spec fn from_css_spec<T: CssKeywordValue>(text: Seq<char>) -> Result<(T, Seq<char>), CssParseErrorView> {
    match css_leading_ident(text) {
        None => Err(CssParseErrorView::ExpectedIdent),
        Some((first, rest)) => {
            if keyword_of(first) == Some(CssKeyword::Safe) || keyword_of(first) == Some(CssKeyword::Unsafe) {
                match css_leading_ident(rest) {
                    None => Err(CssParseErrorView::ExpectedIdent),
                    Some((position, after)) => positioned_spec::<T>(keyword_of(first) == Some(CssKeyword::Safe), position, after),
                }
            } else {
                keyword_spec::<T>(first, rest)
            }
        },
    }
}

/// The value that `text` holds as a whole: the value at its start, with nothing but whitespace
/// and comments after it.
pub open spec fn parse_css_spec<T: CssKeywordValue>(text: Seq<char>) -> Result<T, CssParseErrorView> {
    match from_css_spec::<T>(text) {
        Ok((v, rest)) => if is_css_blank(rest) { Ok(v) } else { Err(CssParseErrorView::TrailingInput) },
        Err(e) => Err(e),
    }
}

/// The model of a prefix parse's result.
pub open spec fn prefix_result_view<T>(r: Result<(T, String), CssParseError>) -> Result<(T, Seq<char>), CssParseErrorView> {
    match r {
        Ok((v, rest)) => Ok((v, rest@)),
        Err(e) => Err(e@),
    }
}

/// The model of a parse's result.
pub open spec fn result_view<T>(r: Result<T, CssParseError>) -> Result<T, CssParseErrorView> {
    match r {
        Ok(v) => Ok(v),
        Err(e) => Err(e@),
    }
}

/// The value named by the identifier `position` after `safe` (where `safe`) or `unsafe`.
pub fn from_position_ident<T: CssKeywordValue>(safe: bool, position: String, rest: String) -> (r: Result<(T, String), CssParseError>)
    ensures
        prefix_result_view(r) == positioned_spec::<T>(safe, position@, rest@),
{
    match keyword(position.as_str()) {
        Some(k) => match T::from_positioned_keyword(safe, k) {
            Some(v) => Ok((v, rest)),
            None => Err(CssParseError::UnexpectedIdent(position)),
        },
        None => Err(CssParseError::UnexpectedIdent(position)),
    }
}

/// The value named by the identifier `first`, standing on its own.
pub fn from_keyword_ident<T: CssKeywordValue>(first: String, rest: String) -> (r: Result<(T, String), CssParseError>)
    ensures
        prefix_result_view(r) == keyword_spec::<T>(first@, rest@),
{
    match keyword(first.as_str()) {
        Some(k) => match T::from_keyword(k) {
            Some(v) => Ok((v, rest)),
            None => Err(CssParseError::UnexpectedIdent(first)),
        },
        None => Err(CssParseError::UnexpectedIdent(first)),
    }
}

/// Parses the value at the start of `input`, and returns it with the text after it.
pub fn from_css<T: CssKeywordValue>(input: &str) -> (r: Result<(T, String), CssParseError>)
    ensures
        prefix_result_view(r) == from_css_spec::<T>(input@),
{
    let (first, rest) = match leading_ident(input) {
        Some(pair) => pair,
        None => return Err(CssParseError::ExpectedIdent),
    };
    let first_keyword = keyword(first.as_str());
    if first_keyword == Some(CssKeyword::Safe) || first_keyword == Some(CssKeyword::Unsafe) {
        let (position, after) = match leading_ident(rest.as_str()) {
            Some(pair) => pair,
            None => return Err(CssParseError::ExpectedIdent),
        };
        from_position_ident::<T>(first_keyword == Some(CssKeyword::Safe), position, after)
    } else {
        from_keyword_ident::<T>(first, rest)
    }
}

/// Parses `text` as a whole as a value of the property.
pub fn parse_css<T: CssKeywordValue>(text: &str) -> (r: Result<T, CssParseError>)
    ensures
        result_view(r) == parse_css_spec::<T>(text@),
{
    match from_css::<T>(text) {
        Ok((v, rest)) => {
            if is_exhausted(rest.as_str()) {
                Ok(v)
            } else {
                Err(CssParseError::TrailingInput)
            }
        },
        Err(e) => Err(e),
    }
}

impl CssKeywordValue for AlignItems {
    open spec fn keyword_value(k: CssKeyword) -> Option<Self> {
        match k {
            CssKeyword::Normal => Some(AlignItems::Normal),
            CssKeyword::Start => Some(AlignItems::Start),
            CssKeyword::End => Some(AlignItems::End),
            CssKeyword::FlexStart => Some(AlignItems::FlexStart),
            CssKeyword::FlexEnd => Some(AlignItems::FlexEnd),
            CssKeyword::SelfStart => Some(AlignItems::SelfStart),
            CssKeyword::SelfEnd => Some(AlignItems::SelfEnd),
            CssKeyword::Center => Some(AlignItems::Center),
            CssKeyword::Baseline => Some(AlignItems::Baseline),
            CssKeyword::Stretch => Some(AlignItems::Stretch),
            _ => None,
        }
    }

    open spec fn positioned_value(safe: bool, k: CssKeyword) -> Option<Self> {
        match k {
            CssKeyword::Start => Some(if safe { AlignItems::SafeStart } else { AlignItems::Start }),
            CssKeyword::End => Some(if safe { AlignItems::SafeEnd } else { AlignItems::End }),
            CssKeyword::FlexStart => Some(if safe { AlignItems::SafeFlexStart } else { AlignItems::FlexStart }),
            CssKeyword::FlexEnd => Some(if safe { AlignItems::SafeFlexEnd } else { AlignItems::FlexEnd }),
            CssKeyword::SelfStart => Some(if safe { AlignItems::SafeSelfStart } else { AlignItems::SelfStart }),
            CssKeyword::SelfEnd => Some(if safe { AlignItems::SafeSelfEnd } else { AlignItems::SelfEnd }),
            CssKeyword::Center => Some(if safe { AlignItems::SafeCenter } else { AlignItems::Center }),
            _ => None,
        }
    }

    fn from_keyword(k: CssKeyword) -> (r: Option<Self>) {
        match k {
            CssKeyword::Normal => Some(AlignItems::Normal),
            CssKeyword::Start => Some(AlignItems::Start),
            CssKeyword::End => Some(AlignItems::End),
            CssKeyword::FlexStart => Some(AlignItems::FlexStart),
            CssKeyword::FlexEnd => Some(AlignItems::FlexEnd),
            CssKeyword::SelfStart => Some(AlignItems::SelfStart),
            CssKeyword::SelfEnd => Some(AlignItems::SelfEnd),
            CssKeyword::Center => Some(AlignItems::Center),
            CssKeyword::Baseline => Some(AlignItems::Baseline),
            CssKeyword::Stretch => Some(AlignItems::Stretch),
            _ => None,
        }
    }

    fn from_positioned_keyword(safe: bool, k: CssKeyword) -> (r: Option<Self>) {
        match k {
            CssKeyword::Start => Some(if safe { AlignItems::SafeStart } else { AlignItems::Start }),
            CssKeyword::End => Some(if safe { AlignItems::SafeEnd } else { AlignItems::End }),
            CssKeyword::FlexStart => Some(if safe { AlignItems::SafeFlexStart } else { AlignItems::FlexStart }),
            CssKeyword::FlexEnd => Some(if safe { AlignItems::SafeFlexEnd } else { AlignItems::FlexEnd }),
            CssKeyword::SelfStart => Some(if safe { AlignItems::SafeSelfStart } else { AlignItems::SelfStart }),
            CssKeyword::SelfEnd => Some(if safe { AlignItems::SafeSelfEnd } else { AlignItems::SelfEnd }),
            CssKeyword::Center => Some(if safe { AlignItems::SafeCenter } else { AlignItems::Center }),
            _ => None,
        }
    }
}

impl core::str::FromStr for AlignItems {
    type Err = CssParseError;

    /// Parses a `AlignItems` value written in CSS syntax.
    fn from_str(s: &str) -> (r: Result<Self, CssParseError>)
        ensures
            result_view(r) == parse_css_spec::<AlignItems>(s@),
    {
        parse_css::<AlignItems>(s)
    }
}

impl CssKeywordValue for AlignSelf {
    open spec fn keyword_value(k: CssKeyword) -> Option<Self> {
        match k {
            CssKeyword::Auto => Some(AlignSelf::Auto),
            CssKeyword::Normal => Some(AlignSelf::Normal),
            CssKeyword::Start => Some(AlignSelf::Start),
            CssKeyword::End => Some(AlignSelf::End),
            CssKeyword::FlexStart => Some(AlignSelf::FlexStart),
            CssKeyword::FlexEnd => Some(AlignSelf::FlexEnd),
            CssKeyword::SelfStart => Some(AlignSelf::SelfStart),
            CssKeyword::SelfEnd => Some(AlignSelf::SelfEnd),
            CssKeyword::Center => Some(AlignSelf::Center),
            CssKeyword::Baseline => Some(AlignSelf::Baseline),
            CssKeyword::Stretch => Some(AlignSelf::Stretch),
            _ => None,
        }
    }

    open spec fn positioned_value(safe: bool, k: CssKeyword) -> Option<Self> {
        match k {
            CssKeyword::Start => Some(if safe { AlignSelf::SafeStart } else { AlignSelf::Start }),
            CssKeyword::End => Some(if safe { AlignSelf::SafeEnd } else { AlignSelf::End }),
            CssKeyword::FlexStart => Some(if safe { AlignSelf::SafeFlexStart } else { AlignSelf::FlexStart }),
            CssKeyword::FlexEnd => Some(if safe { AlignSelf::SafeFlexEnd } else { AlignSelf::FlexEnd }),
            CssKeyword::SelfStart => Some(if safe { AlignSelf::SafeSelfStart } else { AlignSelf::SelfStart }),
            CssKeyword::SelfEnd => Some(if safe { AlignSelf::SafeSelfEnd } else { AlignSelf::SelfEnd }),
            CssKeyword::Center => Some(if safe { AlignSelf::SafeCenter } else { AlignSelf::Center }),
            _ => None,
        }
    }

    fn from_keyword(k: CssKeyword) -> (r: Option<Self>) {
        match k {
            CssKeyword::Auto => Some(AlignSelf::Auto),
            CssKeyword::Normal => Some(AlignSelf::Normal),
            CssKeyword::Start => Some(AlignSelf::Start),
            CssKeyword::End => Some(AlignSelf::End),
            CssKeyword::FlexStart => Some(AlignSelf::FlexStart),
            CssKeyword::FlexEnd => Some(AlignSelf::FlexEnd),
            CssKeyword::SelfStart => Some(AlignSelf::SelfStart),
            CssKeyword::SelfEnd => Some(AlignSelf::SelfEnd),
            CssKeyword::Center => Some(AlignSelf::Center),
            CssKeyword::Baseline => Some(AlignSelf::Baseline),
            CssKeyword::Stretch => Some(AlignSelf::Stretch),
            _ => None,
        }
    }

    fn from_positioned_keyword(safe: bool, k: CssKeyword) -> (r: Option<Self>) {
        match k {
            CssKeyword::Start => Some(if safe { AlignSelf::SafeStart } else { AlignSelf::Start }),
            CssKeyword::End => Some(if safe { AlignSelf::SafeEnd } else { AlignSelf::End }),
            CssKeyword::FlexStart => Some(if safe { AlignSelf::SafeFlexStart } else { AlignSelf::FlexStart }),
            CssKeyword::FlexEnd => Some(if safe { AlignSelf::SafeFlexEnd } else { AlignSelf::FlexEnd }),
            CssKeyword::SelfStart => Some(if safe { AlignSelf::SafeSelfStart } else { AlignSelf::SelfStart }),
            CssKeyword::SelfEnd => Some(if safe { AlignSelf::SafeSelfEnd } else { AlignSelf::SelfEnd }),
            CssKeyword::Center => Some(if safe { AlignSelf::SafeCenter } else { AlignSelf::Center }),
            _ => None,
        }
    }
}

impl core::str::FromStr for AlignSelf {
    type Err = CssParseError;

    /// Parses a `AlignSelf` value written in CSS syntax.
    fn from_str(s: &str) -> (r: Result<Self, CssParseError>)
        ensures
            result_view(r) == parse_css_spec::<AlignSelf>(s@),
    {
        parse_css::<AlignSelf>(s)
    }
}

impl CssKeywordValue for JustifyItems {
    open spec fn keyword_value(k: CssKeyword) -> Option<Self> {
        match k {
            CssKeyword::Normal => Some(JustifyItems::Normal),
            CssKeyword::Start => Some(JustifyItems::Start),
            CssKeyword::End => Some(JustifyItems::End),
            CssKeyword::FlexStart => Some(JustifyItems::FlexStart),
            CssKeyword::FlexEnd => Some(JustifyItems::FlexEnd),
            CssKeyword::SelfStart => Some(JustifyItems::SelfStart),
            CssKeyword::SelfEnd => Some(JustifyItems::SelfEnd),
            CssKeyword::Center => Some(JustifyItems::Center),
            CssKeyword::Baseline => Some(JustifyItems::Baseline),
            CssKeyword::Stretch => Some(JustifyItems::Stretch),
            _ => None,
        }
    }

    open spec fn positioned_value(safe: bool, k: CssKeyword) -> Option<Self> {
        match k {
            CssKeyword::Start => Some(if safe { JustifyItems::SafeStart } else { JustifyItems::Start }),
            CssKeyword::End => Some(if safe { JustifyItems::SafeEnd } else { JustifyItems::End }),
            CssKeyword::FlexStart => Some(if safe { JustifyItems::SafeFlexStart } else { JustifyItems::FlexStart }),
            CssKeyword::FlexEnd => Some(if safe { JustifyItems::SafeFlexEnd } else { JustifyItems::FlexEnd }),
            CssKeyword::SelfStart => Some(if safe { JustifyItems::SafeSelfStart } else { JustifyItems::SelfStart }),
            CssKeyword::SelfEnd => Some(if safe { JustifyItems::SafeSelfEnd } else { JustifyItems::SelfEnd }),
            CssKeyword::Center => Some(if safe { JustifyItems::SafeCenter } else { JustifyItems::Center }),
            _ => None,
        }
    }

    fn from_keyword(k: CssKeyword) -> (r: Option<Self>) {
        match k {
            CssKeyword::Normal => Some(JustifyItems::Normal),
            CssKeyword::Start => Some(JustifyItems::Start),
            CssKeyword::End => Some(JustifyItems::End),
            CssKeyword::FlexStart => Some(JustifyItems::FlexStart),
            CssKeyword::FlexEnd => Some(JustifyItems::FlexEnd),
            CssKeyword::SelfStart => Some(JustifyItems::SelfStart),
            CssKeyword::SelfEnd => Some(JustifyItems::SelfEnd),
            CssKeyword::Center => Some(JustifyItems::Center),
            CssKeyword::Baseline => Some(JustifyItems::Baseline),
            CssKeyword::Stretch => Some(JustifyItems::Stretch),
            _ => None,
        }
    }

    fn from_positioned_keyword(safe: bool, k: CssKeyword) -> (r: Option<Self>) {
        match k {
            CssKeyword::Start => Some(if safe { JustifyItems::SafeStart } else { JustifyItems::Start }),
            CssKeyword::End => Some(if safe { JustifyItems::SafeEnd } else { JustifyItems::End }),
            CssKeyword::FlexStart => Some(if safe { JustifyItems::SafeFlexStart } else { JustifyItems::FlexStart }),
            CssKeyword::FlexEnd => Some(if safe { JustifyItems::SafeFlexEnd } else { JustifyItems::FlexEnd }),
            CssKeyword::SelfStart => Some(if safe { JustifyItems::SafeSelfStart } else { JustifyItems::SelfStart }),
            CssKeyword::SelfEnd => Some(if safe { JustifyItems::SafeSelfEnd } else { JustifyItems::SelfEnd }),
            CssKeyword::Center => Some(if safe { JustifyItems::SafeCenter } else { JustifyItems::Center }),
            _ => None,
        }
    }
}

impl core::str::FromStr for JustifyItems {
    type Err = CssParseError;

    /// Parses a `JustifyItems` value written in CSS syntax.
    fn from_str(s: &str) -> (r: Result<Self, CssParseError>)
        ensures
            result_view(r) == parse_css_spec::<JustifyItems>(s@),
    {
        parse_css::<JustifyItems>(s)
    }
}

impl CssKeywordValue for JustifySelf {
    open spec fn keyword_value(k: CssKeyword) -> Option<Self> {
        match k {
            CssKeyword::Auto => Some(JustifySelf::Auto),
            CssKeyword::Normal => Some(JustifySelf::Normal),
            CssKeyword::Start => Some(JustifySelf::Start),
            CssKeyword::End => Some(JustifySelf::End),
            CssKeyword::FlexStart => Some(JustifySelf::FlexStart),
            CssKeyword::FlexEnd => Some(JustifySelf::FlexEnd),
            CssKeyword::SelfStart => Some(JustifySelf::SelfStart),
            CssKeyword::SelfEnd => Some(JustifySelf::SelfEnd),
            CssKeyword::Center => Some(JustifySelf::Center),
            CssKeyword::Baseline => Some(JustifySelf::Baseline),
            CssKeyword::Stretch => Some(JustifySelf::Stretch),
            _ => None,
        }
    }

    open spec fn positioned_value(safe: bool, k: CssKeyword) -> Option<Self> {
        match k {
            CssKeyword::Start => Some(if safe { JustifySelf::SafeStart } else { JustifySelf::Start }),
            CssKeyword::End => Some(if safe { JustifySelf::SafeEnd } else { JustifySelf::End }),
            CssKeyword::FlexStart => Some(if safe { JustifySelf::SafeFlexStart } else { JustifySelf::FlexStart }),
            CssKeyword::FlexEnd => Some(if safe { JustifySelf::SafeFlexEnd } else { JustifySelf::FlexEnd }),
            CssKeyword::SelfStart => Some(if safe { JustifySelf::SafeSelfStart } else { JustifySelf::SelfStart }),
            CssKeyword::SelfEnd => Some(if safe { JustifySelf::SafeSelfEnd } else { JustifySelf::SelfEnd }),
            CssKeyword::Center => Some(if safe { JustifySelf::SafeCenter } else { JustifySelf::Center }),
            _ => None,
        }
    }

    fn from_keyword(k: CssKeyword) -> (r: Option<Self>) {
        match k {
            CssKeyword::Auto => Some(JustifySelf::Auto),
            CssKeyword::Normal => Some(JustifySelf::Normal),
            CssKeyword::Start => Some(JustifySelf::Start),
            CssKeyword::End => Some(JustifySelf::End),
            CssKeyword::FlexStart => Some(JustifySelf::FlexStart),
            CssKeyword::FlexEnd => Some(JustifySelf::FlexEnd),
            CssKeyword::SelfStart => Some(JustifySelf::SelfStart),
            CssKeyword::SelfEnd => Some(JustifySelf::SelfEnd),
            CssKeyword::Center => Some(JustifySelf::Center),
            CssKeyword::Baseline => Some(JustifySelf::Baseline),
            CssKeyword::Stretch => Some(JustifySelf::Stretch),
            _ => None,
        }
    }

    fn from_positioned_keyword(safe: bool, k: CssKeyword) -> (r: Option<Self>) {
        match k {
            CssKeyword::Start => Some(if safe { JustifySelf::SafeStart } else { JustifySelf::Start }),
            CssKeyword::End => Some(if safe { JustifySelf::SafeEnd } else { JustifySelf::End }),
            CssKeyword::FlexStart => Some(if safe { JustifySelf::SafeFlexStart } else { JustifySelf::FlexStart }),
            CssKeyword::FlexEnd => Some(if safe { JustifySelf::SafeFlexEnd } else { JustifySelf::FlexEnd }),
            CssKeyword::SelfStart => Some(if safe { JustifySelf::SafeSelfStart } else { JustifySelf::SelfStart }),
            CssKeyword::SelfEnd => Some(if safe { JustifySelf::SafeSelfEnd } else { JustifySelf::SelfEnd }),
            CssKeyword::Center => Some(if safe { JustifySelf::SafeCenter } else { JustifySelf::Center }),
            _ => None,
        }
    }
}

impl core::str::FromStr for JustifySelf {
    type Err = CssParseError;

    /// Parses a `JustifySelf` value written in CSS syntax.
    fn from_str(s: &str) -> (r: Result<Self, CssParseError>)
        ensures
            result_view(r) == parse_css_spec::<JustifySelf>(s@),
    {
        parse_css::<JustifySelf>(s)
    }
}

impl CssKeywordValue for AlignContent {
    open spec fn keyword_value(k: CssKeyword) -> Option<Self> {
        match k {
            CssKeyword::Normal => Some(AlignContent::Normal),
            CssKeyword::Start => Some(AlignContent::Start),
            CssKeyword::End => Some(AlignContent::End),
            CssKeyword::FlexStart => Some(AlignContent::FlexStart),
            CssKeyword::FlexEnd => Some(AlignContent::FlexEnd),
            CssKeyword::Center => Some(AlignContent::Center),
            CssKeyword::Stretch => Some(AlignContent::Stretch),
            CssKeyword::SpaceBetween => Some(AlignContent::SpaceBetween),
            CssKeyword::SpaceEvenly => Some(AlignContent::SpaceEvenly),
            CssKeyword::SpaceAround => Some(AlignContent::SpaceAround),
            _ => None,
        }
    }

    open spec fn positioned_value(safe: bool, k: CssKeyword) -> Option<Self> {
        match k {
            CssKeyword::Start => Some(if safe { AlignContent::SafeStart } else { AlignContent::Start }),
            CssKeyword::End => Some(if safe { AlignContent::SafeEnd } else { AlignContent::End }),
            CssKeyword::FlexStart => Some(if safe { AlignContent::SafeFlexStart } else { AlignContent::FlexStart }),
            CssKeyword::FlexEnd => Some(if safe { AlignContent::SafeFlexEnd } else { AlignContent::FlexEnd }),
            CssKeyword::Center => Some(if safe { AlignContent::SafeCenter } else { AlignContent::Center }),
            _ => None,
        }
    }

    fn from_keyword(k: CssKeyword) -> (r: Option<Self>) {
        match k {
            CssKeyword::Normal => Some(AlignContent::Normal),
            CssKeyword::Start => Some(AlignContent::Start),
            CssKeyword::End => Some(AlignContent::End),
            CssKeyword::FlexStart => Some(AlignContent::FlexStart),
            CssKeyword::FlexEnd => Some(AlignContent::FlexEnd),
            CssKeyword::Center => Some(AlignContent::Center),
            CssKeyword::Stretch => Some(AlignContent::Stretch),
            CssKeyword::SpaceBetween => Some(AlignContent::SpaceBetween),
            CssKeyword::SpaceEvenly => Some(AlignContent::SpaceEvenly),
            CssKeyword::SpaceAround => Some(AlignContent::SpaceAround),
            _ => None,
        }
    }

    fn from_positioned_keyword(safe: bool, k: CssKeyword) -> (r: Option<Self>) {
        match k {
            CssKeyword::Start => Some(if safe { AlignContent::SafeStart } else { AlignContent::Start }),
            CssKeyword::End => Some(if safe { AlignContent::SafeEnd } else { AlignContent::End }),
            CssKeyword::FlexStart => Some(if safe { AlignContent::SafeFlexStart } else { AlignContent::FlexStart }),
            CssKeyword::FlexEnd => Some(if safe { AlignContent::SafeFlexEnd } else { AlignContent::FlexEnd }),
            CssKeyword::Center => Some(if safe { AlignContent::SafeCenter } else { AlignContent::Center }),
            _ => None,
        }
    }
}

impl core::str::FromStr for AlignContent {
    type Err = CssParseError;

    /// Parses a `AlignContent` value written in CSS syntax.
    fn from_str(s: &str) -> (r: Result<Self, CssParseError>)
        ensures
            result_view(r) == parse_css_spec::<AlignContent>(s@),
    {
        parse_css::<AlignContent>(s)
    }
}

impl CssKeywordValue for JustifyContent {
    open spec fn keyword_value(k: CssKeyword) -> Option<Self> {
        match k {
            CssKeyword::Normal => Some(JustifyContent::Normal),
            CssKeyword::Start => Some(JustifyContent::Start),
            CssKeyword::End => Some(JustifyContent::End),
            CssKeyword::FlexStart => Some(JustifyContent::FlexStart),
            CssKeyword::FlexEnd => Some(JustifyContent::FlexEnd),
            CssKeyword::Center => Some(JustifyContent::Center),
            CssKeyword::Stretch => Some(JustifyContent::Stretch),
            CssKeyword::SpaceBetween => Some(JustifyContent::SpaceBetween),
            CssKeyword::SpaceEvenly => Some(JustifyContent::SpaceEvenly),
            CssKeyword::SpaceAround => Some(JustifyContent::SpaceAround),
            _ => None,
        }
    }

    open spec fn positioned_value(safe: bool, k: CssKeyword) -> Option<Self> {
        match k {
            CssKeyword::Start => Some(if safe { JustifyContent::SafeStart } else { JustifyContent::Start }),
            CssKeyword::End => Some(if safe { JustifyContent::SafeEnd } else { JustifyContent::End }),
            CssKeyword::FlexStart => Some(if safe { JustifyContent::SafeFlexStart } else { JustifyContent::FlexStart }),
            CssKeyword::FlexEnd => Some(if safe { JustifyContent::SafeFlexEnd } else { JustifyContent::FlexEnd }),
            CssKeyword::Center => Some(if safe { JustifyContent::SafeCenter } else { JustifyContent::Center }),
            _ => None,
        }
    }

    fn from_keyword(k: CssKeyword) -> (r: Option<Self>) {
        match k {
            CssKeyword::Normal => Some(JustifyContent::Normal),
            CssKeyword::Start => Some(JustifyContent::Start),
            CssKeyword::End => Some(JustifyContent::End),
            CssKeyword::FlexStart => Some(JustifyContent::FlexStart),
            CssKeyword::FlexEnd => Some(JustifyContent::FlexEnd),
            CssKeyword::Center => Some(JustifyContent::Center),
            CssKeyword::Stretch => Some(JustifyContent::Stretch),
            CssKeyword::SpaceBetween => Some(JustifyContent::SpaceBetween),
            CssKeyword::SpaceEvenly => Some(JustifyContent::SpaceEvenly),
            CssKeyword::SpaceAround => Some(JustifyContent::SpaceAround),
            _ => None,
        }
    }

    fn from_positioned_keyword(safe: bool, k: CssKeyword) -> (r: Option<Self>) {
        match k {
            CssKeyword::Start => Some(if safe { JustifyContent::SafeStart } else { JustifyContent::Start }),
            CssKeyword::End => Some(if safe { JustifyContent::SafeEnd } else { JustifyContent::End }),
            CssKeyword::FlexStart => Some(if safe { JustifyContent::SafeFlexStart } else { JustifyContent::FlexStart }),
            CssKeyword::FlexEnd => Some(if safe { JustifyContent::SafeFlexEnd } else { JustifyContent::FlexEnd }),
            CssKeyword::Center => Some(if safe { JustifyContent::SafeCenter } else { JustifyContent::Center }),
            _ => None,
        }
    }
}

impl core::str::FromStr for JustifyContent {
    type Err = CssParseError;

    /// Parses a `JustifyContent` value written in CSS syntax.
    fn from_str(s: &str) -> (r: Result<Self, CssParseError>)
        ensures
            result_view(r) == parse_css_spec::<JustifyContent>(s@),
    {
        parse_css::<JustifyContent>(s)
    }
}

} // verus!
