//! Parses one `{...}` annotation span by shape.
//!
//! Three shapes are recognized: `{#comment}` (content dropped on render),
//! `{base|.}` (emphasis dots) and `{base|annotation}` (ruby).  Anything else
//! is malformed; the tokenizer reports it as a diagnostic.

use vstd::prelude::*;
use vstd::string::*;

use crate::parser::terminator_parser::TerminatorParser;
use crate::text::{first_index, has_char, find_char, substring_chars, to_chars};
use crate::tokens::line_item::{classify_terminator, LineItem, Terminator, TokenModel};

verus! {

/// The emphasis mark placed above each character of an emphasized base text.
pub open spec fn sesame_mark() -> char {
    '・'
}

/// The token an annotation span's content stands for, if its shape is
/// recognized: `#comment` strips the marker, `base|.` makes emphasis dots,
/// `base|annotation` makes ruby text; base and annotation must be non-empty.
pub open spec fn span_token(content: Seq<char>) -> Option<TokenModel> {
    if content.len() >= 2 && content[0] == '#' {
        Some(TokenModel::Comment(content.skip(1)))
    } else if has_char(content, '|') {
        let k = first_index(content, '|');
        let base = content.take(k);
        let anno = content.skip(k + 1);
        if base.len() == 0 || anno.len() == 0 {
            None
        } else if anno.len() == 1 && anno[0] == '.' {
            Some(TokenModel::TextWithSesame(base, sesame_mark()))
        } else {
            Some(TokenModel::TextWithRuby(base, anno))
        }
    } else {
        None
    }
}

/// The token for a span's content, or `None` where the shape is malformed.
pub(crate) fn span_item(content: &Vec<char>) -> (r: Option<LineItem>)
    ensures
        match r {
            Some(t) => span_token(content@) == Some(t@),
            None => span_token(content@) is None,
        },
{
    if content.len() >= 2 && content[0] == '#' {
        let s = substring_chars(content, 1, content.len());
        proof {
            assert(content@.subrange(1, content@.len() as int) =~= content@.skip(1));
        }
        Some(LineItem::Comment(s))
    } else {
        match find_char(content, '|') {
            Some(k) => {
                proof {
                    assert(content@.subrange(0, k as int) =~= content@.take(k as int));
                }
                if k == 0 || k + 1 == content.len() {
                    None
                } else {
                    let base = substring_chars(content, 0, k);
                    let anno = substring_chars(content, k + 1, content.len());
                    proof {
                        assert(content@.subrange(k + 1 as int, content@.len() as int)
                            =~= content@.skip(k + 1));
                    }
                    if k + 2 == content.len() && content[k + 1] == '.' {
                        Some(LineItem::TextWithSesame((base, '・')))
                    } else {
                        Some(LineItem::TextWithRuby((base, anno)))
                    }
                }
            },
            None => None,
        }
    }
}

/// Span-level helpers over whole lexemes, braces included.
pub struct LineItemParser;

/// Whether `s` is a comment lexeme `{#...}` with non-empty content.
pub open spec fn is_comment_lexeme(s: Seq<char>) -> bool {
    s.len() >= 4 && s[0] == '{' && s[1] == '#' && s.last() == '}'
}

/// Whether `s` is a braced lexeme `{...}`.
pub open spec fn is_braced_lexeme(s: Seq<char>) -> bool {
    s.len() >= 2 && s[0] == '{' && s.last() == '}'
}

impl LineItemParser {
    /// The lexeme itself, as an owned string.
    pub fn to_string(slice: &str) -> (r: String)
        ensures
            r@ == slice@,
    {
        slice.to_owned()
    }

    /// The content of a comment lexeme `{#...}`, markers stripped; `None`
    /// where the lexeme has no such shape.
    pub fn to_comment_string(slice: &str) -> (r: Option<String>)
        ensures
            match r {
                Some(t) => is_comment_lexeme(slice@) && t@ == slice@.subrange(
                    2,
                    slice@.len() - 1,
                ),
                None => !is_comment_lexeme(slice@),
            },
    {
        let v = to_chars(slice);
        if v.len() >= 4 && v[0] == '{' && v[1] == '#' && v[v.len() - 1] == '}' {
            Some(substring_chars(&v, 2, v.len() - 1))
        } else {
            None
        }
    }

    /// The classified terminator run of the whole lexeme.
    pub fn to_terminator(slice: &str) -> (t: Terminator)
        ensures
            t@ == classify_terminator(slice@),
    {
        let parser = TerminatorParser::new(slice);
        parser.parse()
    }

    /// The base and annotation of a braced lexeme `{base|annotation}`, split
    /// at the first `|` of the content; `None` where the braces or the `|`
    /// are missing.
    pub fn to_ruby(slice: &str) -> (r: Option<(String, String)>)
        ensures
            match r {
                Some(p) => {
                    let content = slice@.subrange(1, slice@.len() - 1);
                    &&& is_braced_lexeme(slice@)
                    &&& has_char(content, '|')
                    &&& p.0@ == content.take(first_index(content, '|'))
                    &&& p.1@ == content.skip(first_index(content, '|') + 1)
                },
                None => !(is_braced_lexeme(slice@) && has_char(
                    slice@.subrange(1, slice@.len() - 1),
                    '|',
                )),
            },
    {
        let v = to_chars(slice);
        if v.len() >= 2 && v[0] == '{' && v[v.len() - 1] == '}' {
            let content = to_chars(substring_chars(&v, 1, v.len() - 1).as_str());
            match find_char(&content, '|') {
                Some(k) => {
                    let base = substring_chars(&content, 0, k);
                    let anno = substring_chars(&content, k + 1, content.len());
                    proof {
                        let cm = slice@.subrange(1, slice@.len() - 1);
                        assert(content@ == cm);
                        assert(content@.subrange(0, k as int) =~= cm.take(k as int));
                        assert(content@.subrange(k + 1 as int, content@.len() as int) =~= cm.skip(
                            k + 1,
                        ));
                    }
                    Some((base, anno))
                },
                None => None,
            }
        } else {
            None
        }
    }

    /// The base of a braced lexeme `{base|...}` together with the emphasis
    /// mark; `None` where the braces or the `|` are missing.
    pub fn to_sesame(slice: &str) -> (r: Option<(String, char)>)
        ensures
            match r {
                Some(p) => {
                    let content = slice@.subrange(1, slice@.len() - 1);
                    &&& is_braced_lexeme(slice@)
                    &&& has_char(content, '|')
                    &&& p.0@ == content.take(first_index(content, '|'))
                    &&& p.1 == sesame_mark()
                },
                None => !(is_braced_lexeme(slice@) && has_char(
                    slice@.subrange(1, slice@.len() - 1),
                    '|',
                )),
            },
    {
        match Self::to_ruby(slice) {
            Some(p) => Some((p.0, '・')),
            None => None,
        }
    }
}

} // verus!
