//! The Publishing-Markdown dialect: ruby kept in `{base|annotation}` source
//! form, `#` headings, and blank-line scene separators.

use vstd::prelude::*;
use vstd::string::*;

use crate::converter::{
    convert_body_generic, convert_line_with, convert_sections_with, LineConverter,
    LineItemConverter, ManuscriptConverter, SectionConverter,
};
use crate::text::push_char;
use crate::tokens::line::Line;
use crate::tokens::line_item::{LineItem, Terminator, TerminatorModel, TokenModel};
use crate::tokens::section::Section;

verus! {

/// The Publishing-Markdown text of one token: plain text and delimiters as
/// they are, inline comments dropped, ruby and emphasis dots kept in their
/// source span form, sentence ends as their literal run, and a section end
/// as a line break.
pub open spec fn vfm_item_text(item: TokenModel) -> Seq<char> {
    match item {
        TokenModel::Text(t) => t,
        TokenModel::Comma(c) => c,
        TokenModel::Comment(_) => Seq::empty(),
        TokenModel::TextWithRuby(base, ruby) => seq!['{'] + base + seq!['|'] + ruby + seq!['}'],
        TokenModel::TextWithSesame(base, _) => seq!['{'] + base + seq!['|', '.', '}'],
        TokenModel::EndOfSentence(TerminatorModel::Normal(t)) => t,
        TokenModel::EndOfSentence(TerminatorModel::Exclamation(t)) => t,
        TokenModel::EndOfSection(_) => seq!['\n'],
    }
}

/// Token renderer for the Publishing-Markdown dialect.
pub struct VfmLineItemConverter;

impl LineItemConverter for VfmLineItemConverter {
    open spec fn spec_convert(item: TokenModel) -> Seq<char> {
        vfm_item_text(item)
    }

    fn convert(item: LineItem) -> (r: String) {
        match item {
            LineItem::Text(t) => t,
            LineItem::Comma(c) => c,
            LineItem::Comment(_) => String::new(),
            LineItem::TextWithRuby(p) => {
                let mut r = String::new();
                push_char(&mut r, '{');
                r.append(p.0.as_str());
                push_char(&mut r, '|');
                r.append(p.1.as_str());
                push_char(&mut r, '}');
                proof {
                    assert(r@ =~= seq!['{'] + p.0@ + seq!['|'] + p.1@ + seq!['}']);
                }
                r
            },
            LineItem::TextWithSesame(p) => {
                let mut r = String::new();
                push_char(&mut r, '{');
                r.append(p.0.as_str());
                push_char(&mut r, '|');
                push_char(&mut r, '.');
                push_char(&mut r, '}');
                proof {
                    assert(r@ =~= seq!['{'] + p.0@ + seq!['|', '.', '}']);
                }
                r
            },
            LineItem::EndOfSentence(t) => match t {
                Terminator::Normal(s) => s,
                Terminator::Exclamation(s) => s,
            },
            LineItem::EndOfSection(_) => {
                let mut r = String::new();
                push_char(&mut r, '\n');
                proof {
                    assert(r@ =~= seq!['\n']);
                }
                r
            },
        }
    }
}

/// Renders one token in the Publishing-Markdown dialect.
pub fn convert(item: LineItem) -> (r: String)
    ensures
        r@ == vfm_item_text(item@),
{
    VfmLineItemConverter::convert(item)
}

/// Line renderer for the Publishing-Markdown dialect.
pub struct VfmLineConverter;

impl LineConverter for VfmLineConverter {
    type ItemConverter = VfmLineItemConverter;

    open spec fn spec_line_separator() -> Seq<char> {
        seq!['\n']
    }

    fn line_separator() -> (r: String) {
        let mut r = String::new();
        push_char(&mut r, '\n');
        proof {
            assert(r@ =~= seq!['\n']);
        }
        r
    }

    fn convert(line: Line) -> (r: String) {
        let sep = Self::line_separator();
        convert_line_with::<VfmLineItemConverter>(line, sep.as_str())
    }
}

/// Section renderer for the Publishing-Markdown dialect: a title renders to
/// a `#` heading line, a scene to its line renderings.
pub struct VfmSectionConverter;

impl SectionConverter for VfmSectionConverter {
    type ItemConverter = VfmLineConverter;

    open spec fn spec_title(title: Seq<char>) -> Seq<char> {
        seq!['#', ' '] + title + seq!['\n']
    }

    fn convert(section: Section) -> (r: String) {
        match section {
            Section::Title(t) => {
                let mut r = String::new();
                push_char(&mut r, '#');
                push_char(&mut r, ' ');
                r.append(t.as_str());
                push_char(&mut r, '\n');
                proof {
                    assert(r@ =~= seq!['#', ' '] + t@ + seq!['\n']);
                }
                r
            },
            Section::Scene(_, body) => convert_body_generic::<VfmLineConverter>(body),
        }
    }
}

/// Manuscript renderer for the Publishing-Markdown dialect, with its
/// blank-line scene separator.
pub struct VfmManuscriptConverter;

impl ManuscriptConverter for VfmManuscriptConverter {
    type ItemConverter = VfmSectionConverter;

    open spec fn spec_scene_separator() -> Seq<char> {
        seq!['\n', '\n']
    }

    fn scene_separator() -> (r: String) {
        let mut r = String::new();
        push_char(&mut r, '\n');
        push_char(&mut r, '\n');
        proof {
            assert(r@ =~= seq!['\n', '\n']);
        }
        r
    }

    fn convert(sections: Vec<Section>) -> (r: String) {
        let sep = Self::scene_separator();
        convert_sections_with::<VfmSectionConverter>(sections, sep.as_str())
    }
}

} // verus!
