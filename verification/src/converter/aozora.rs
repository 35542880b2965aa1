//! The Vertical-Print dialect: ruby as `|base《annotation》`, emphasis marks
//! over each character, dagger-style scene separators, and a trailing
//! full-width space after exclamatory sentence ends.

use vstd::prelude::*;
use vstd::string::*;

use crate::converter::{
    convert_body_generic, convert_line_with, convert_sections_with, render_line,
    LineConverter, LineItemConverter, ManuscriptConverter, SectionConverter,
};
use crate::text::push_char;
use crate::tokens::line::Line;
use crate::tokens::line_item::{LineItem, Terminator, TerminatorModel, TokenModel};
use crate::tokens::section::Section;

verus! {

/// `n` copies of the mark `c`.
pub open spec fn repeat_char(c: char, n: nat) -> Seq<char>
    decreases n,
{
    if n == 0 {
        Seq::empty()
    } else {
        repeat_char(c, (n - 1) as nat).push(c)
    }
}

/// A string of `n` copies of `c`.
fn repeat_char_string(c: char, n: usize) -> (r: String)
    ensures
        r@ == repeat_char(c, n as nat),
{
    let mut r = String::new();
    let mut i: usize = 0;
    while i < n
        invariant
            i <= n,
            r@ == repeat_char(c, i as nat),
        decreases n - i,
    {
        push_char(&mut r, c);
        i += 1;
    }
    r
}

/// The Vertical-Print text of one token: plain text and delimiters as they
/// are, inline comments dropped, ruby as `|base《annotation》`, emphasis dots
/// as one mark per character of the base, an exclamatory sentence end with a
/// trailing full-width space, and a section end as a line break.
pub open spec fn aozora_item_text(item: TokenModel) -> Seq<char> {
    match item {
        TokenModel::Text(t) => t,
        TokenModel::Comma(c) => c,
        TokenModel::Comment(_) => Seq::empty(),
        TokenModel::TextWithRuby(base, ruby) => seq!['|'] + base + seq!['《'] + ruby
            + seq!['》'],
        TokenModel::TextWithSesame(base, mark) => seq!['|'] + base + seq!['《'] + repeat_char(
            mark,
            base.len(),
        ) + seq!['》'],
        TokenModel::EndOfSentence(TerminatorModel::Normal(t)) => t,
        TokenModel::EndOfSentence(TerminatorModel::Exclamation(t)) => t + seq!['　'],
        TokenModel::EndOfSection(_) => seq!['\n'],
    }
}

/// Token renderer for the Vertical-Print dialect.
pub struct AozoraLineItemConverter;

impl LineItemConverter for AozoraLineItemConverter {
    open spec fn spec_convert(item: TokenModel) -> Seq<char> {
        aozora_item_text(item)
    }

    fn convert(item: LineItem) -> (r: String) {
        match item {
            LineItem::Text(t) => t,
            LineItem::Comma(c) => c,
            LineItem::Comment(_) => String::new(),
            LineItem::TextWithRuby(p) => {
                let mut r = String::new();
                push_char(&mut r, '|');
                r.append(p.0.as_str());
                push_char(&mut r, '《');
                r.append(p.1.as_str());
                push_char(&mut r, '》');
                proof {
                    assert(r@ =~= seq!['|'] + p.0@ + seq!['《'] + p.1@ + seq!['》']);
                }
                r
            },
            LineItem::TextWithSesame(p) => {
                let n = p.0.as_str().unicode_len();
                let marks = repeat_char_string(p.1, n);
                let mut r = String::new();
                push_char(&mut r, '|');
                r.append(p.0.as_str());
                push_char(&mut r, '《');
                r.append(marks.as_str());
                push_char(&mut r, '》');
                proof {
                    assert(r@ =~= seq!['|'] + p.0@ + seq!['《'] + repeat_char(p.1, p.0@.len())
                        + seq!['》']);
                }
                r
            },
            LineItem::EndOfSentence(t) => match t {
                Terminator::Normal(s) => s,
                Terminator::Exclamation(s) => {
                    let ghost sv = s@;
                    let mut r = s;
                    push_char(&mut r, '　');
                    proof {
                        assert(r@ =~= sv + seq!['　']);
                    }
                    r
                },
            },
            LineItem::EndOfSection(_) => {
                let mut r = String::new();
                push_char(&mut r, '\n');
                proof {
                    assert(r@ =~= seq!['\n']);
                }
                r
            },
        }
    }
}

/// Line renderer for the Vertical-Print dialect.
pub struct AozoraLineConverter;

impl LineConverter for AozoraLineConverter {
    type ItemConverter = AozoraLineItemConverter;

    open spec fn spec_line_separator() -> Seq<char> {
        seq!['\n']
    }

    fn line_separator() -> (r: String) {
        let mut r = String::new();
        push_char(&mut r, '\n');
        proof {
            assert(r@ =~= seq!['\n']);
        }
        r
    }

    fn convert(line: Line) -> (r: String) {
        let sep = Self::line_separator();
        convert_line_with::<AozoraLineItemConverter>(line, sep.as_str())
    }
}

/// Renders one line in the Vertical-Print dialect.
pub fn convert(line: Line) -> (r: String)
    ensures
        r@ == render_line::<AozoraLineConverter>(line@),
{
    AozoraLineConverter::convert(line)
}

/// Section renderer for the Vertical-Print dialect: a title renders to
/// nothing, a scene to its line renderings.
pub struct AozoraSectionConverter;

impl SectionConverter for AozoraSectionConverter {
    type ItemConverter = AozoraLineConverter;

    open spec fn spec_title(title: Seq<char>) -> Seq<char> {
        Seq::empty()
    }

    fn convert(section: Section) -> (r: String) {
        match section {
            Section::Title(_) => String::new(),
            Section::Scene(_, body) => convert_body_generic::<AozoraLineConverter>(body),
        }
    }
}

/// Manuscript renderer for the Vertical-Print dialect, with its dagger-style
/// scene separator.
pub struct AozoraManuscriptConverter;

impl ManuscriptConverter for AozoraManuscriptConverter {
    type ItemConverter = AozoraSectionConverter;

    open spec fn spec_scene_separator() -> Seq<char> {
        seq!['\n', '†', '\n', '\n']
    }

    fn scene_separator() -> (r: String) {
        let mut r = String::new();
        push_char(&mut r, '\n');
        push_char(&mut r, '†');
        push_char(&mut r, '\n');
        push_char(&mut r, '\n');
        proof {
            assert(r@ =~= seq!['\n', '†', '\n', '\n']);
        }
        r
    }

    fn convert(sections: Vec<Section>) -> (r: String) {
        let sep = Self::scene_separator();
        convert_sections_with::<AozoraSectionConverter>(sections, sep.as_str())
    }
}

} // verus!
