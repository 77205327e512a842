//! The CSS tokenizer, from `cssparser`.
use vstd::prelude::*;

verus! {

/// What `cssparser::Parser::expect_ident` finds on a parser over `text`: where the first token
/// after whitespace and comments is an identifier, its unescaped value and the text that follows
/// the token; `None` where the input ends first or the first token is not an identifier.
pub uninterp spec fn css_leading_ident(text: Seq<char>) -> Option<(Seq<char>, Seq<char>)>;

/// Whether `c` is CSS whitespace: space, tab, line feed, carriage return or form feed.
pub open spec fn is_css_whitespace(c: char) -> bool {
    c == ' ' || c == '\t' || c == '\n' || c == '\r' || c == '\x0C'
}

/// Whether `text` holds nothing but CSS whitespace and `/* ... */` comments; the last comment may
/// be left open until the end of the text.
pub open spec fn is_css_blank(text: Seq<char>) -> bool
    decreases text.len(), 1int,
{
    if text.len() == 0 {
        true
    } else if is_css_whitespace(text[0]) {
        is_css_blank(text.drop_first())
    } else if text.len() >= 2 && text[0] == '/' && text[1] == '*' {
        is_css_blank_after_comment_start(text.subrange(2, text.len() as int))
    } else {
        false
    }
}

/// Whether `text`, which follows the `/*` that opens a comment, holds the rest of that comment
/// (up to and with the first `*/`, or to the end of the text) and then nothing but CSS whitespace
/// and comments.
pub open spec fn is_css_blank_after_comment_start(text: Seq<char>) -> bool
    decreases text.len(), 0int,
{
    if text.len() == 0 {
        true
    } else if text.len() >= 2 && text[0] == '*' && text[1] == '/' {
        is_css_blank(text.subrange(2, text.len() as int))
    } else {
        is_css_blank_after_comment_start(text.drop_first())
    }
}

/// Calls `cssparser::Parser::expect_ident` on a fresh parser over `text`, and hands back the
/// identifier's unescaped value with the text after the token (sliced at the parser's
/// `position()`), or `None` where it returned an error. The contract claims no more than that
/// the result is `css_leading_ident(text)`; how cssparser tokenizes is not stated here.
#[verifier::external_body]
pub(crate) fn leading_ident(text: &str) -> (r: Option<(String, String)>)
    ensures
        r is None <==> css_leading_ident(text@) is None,
        r matches Some((ident, rest)) ==> css_leading_ident(text@) == Some((ident@, rest@)),
{
    let mut parser = cssparser::Parser::new(text);
    let ident = match parser.expect_ident() {
        Ok(ident) => ident.to_string(),
        Err(_) => return None,
    };
    Some((ident, text[parser.position().byte_index()..].to_string()))
}

/// Calls `cssparser::Parser::is_exhausted` on a fresh parser over `text`. The parser skips
/// whitespace and comments (`Tokenizer::skip_whitespace`) and then reports whether the input has
/// ended, so the answer is whether the text is only whitespace and comments.
#[verifier::external_body]
pub(crate) fn is_exhausted(text: &str) -> (r: bool)
    ensures
        r == is_css_blank(text@),
{
    cssparser::Parser::new(text).is_exhausted()
}

} // verus!
