//! The four-level rendering framework.
//!
//! Each level is generic over the level below — token, line, section,
//! manuscript — so a dialect is four small implementations.  The structural
//! join rules are shared here as generic functions with one specification;
//! the dialects differ only in item-level text and separators.

use vstd::prelude::*;
use vstd::string::*;

use crate::text::push_char;
use crate::tokens::line::{lines_model, Line, LineModel};
use crate::tokens::line_item::{items_model, LineItem, TokenModel};
use crate::tokens::section::{sections_model, Section, SectionModel};

pub mod aozora;
pub mod vfm;

verus! {

/// Renders one token into dialect-specific text.
pub trait LineItemConverter {
    /// The dialect's text for one token.
    spec fn spec_convert(item: TokenModel) -> Seq<char>;

    /// Renders one token.
    fn convert(item: LineItem) -> (r: String)
        ensures
            r@ == Self::spec_convert(item@),
    ;
}

/// The concatenated renderings of a token sequence.
pub open spec fn render_items<C: LineItemConverter>(items: Seq<TokenModel>) -> Seq<char>
    decreases items.len(),
{
    if items.len() == 0 {
        Seq::empty()
    } else {
        C::spec_convert(items[0]) + render_items::<C>(items.drop_first())
    }
}

/// Renders every token of a line, in order.
pub fn convert_items<C: LineItemConverter>(items: Vec<LineItem>) -> (r: String)
    ensures
        r@ == render_items::<C>(items_model(items@)),
{
    let ghost orig = items_model(items@);
    let mut items = items;
    let mut r = String::new();
    proof {
        assert(r@ + render_items::<C>(items_model(items@)) =~= render_items::<C>(orig));
    }
    while items.len() > 0
        invariant
            render_items::<C>(orig) == r@ + render_items::<C>(items_model(items@)),
        decreases items@.len(),
    {
        let ghost before = items_model(items@);
        let item = items.remove(0);
        proof {
            assert(items_model(items@) =~= before.drop_first());
            assert(before[0] == item@);
        }
        let piece = C::convert(item);
        proof {
            assert(r@ + (C::spec_convert(item@) + render_items::<C>(before.drop_first()))
                =~= (r@ + piece@) + render_items::<C>(before.drop_first()));
        }
        r.append(piece.as_str());
    }
    proof {
        assert(items_model(items@) =~= Seq::<TokenModel>::empty());
        assert(r@ + Seq::<char>::empty() =~= r@);
    }
    r
}

/// One line's rendering over a token renderer and a line terminator: an
/// indent marker by line kind, the token renderings in order, and the
/// terminator; a comment line renders as the terminator alone, its content
/// never appears.
pub open spec fn render_line_with<C: LineItemConverter>(line: LineModel, sep: Seq<char>) -> Seq<
    char,
> {
    match line {
        LineModel::Paragraph(items) => seq!['　'] + render_items::<C>(items) + sep,
        LineModel::Conversation(items) => seq![' '] + render_items::<C>(items) + sep,
        LineModel::Quotation(items) => seq!['>', ' '] + render_items::<C>(items) + sep,
        LineModel::Comment(_) => sep,
    }
}

/// Renders one line into dialect-specific text.
pub trait LineConverter {
    /// The token renderer this line renderer builds on.
    type ItemConverter: LineItemConverter;

    /// The dialect's line terminator.
    spec fn spec_line_separator() -> Seq<char>;

    /// The line terminator, executable form.
    fn line_separator() -> (r: String)
        ensures
            r@ == Self::spec_line_separator(),
    ;

    /// Renders one line.
    fn convert(line: Line) -> (r: String)
        ensures
            r@ == render_line_with::<Self::ItemConverter>(line@, Self::spec_line_separator()),
    ;
}

/// One line's rendering in the dialect of the line renderer `L`.
pub open spec fn render_line<L: LineConverter + ?Sized>(line: LineModel) -> Seq<char> {
    render_line_with::<L::ItemConverter>(line, L::spec_line_separator())
}

/// The shared structural algorithm behind every dialect's line renderer,
/// over the dialect's token renderer and line terminator.
pub fn convert_line_with<C: LineItemConverter>(line: Line, sep: &str) -> (r: String)
    ensures
        r@ == render_line_with::<C>(line@, sep@),
{
    match line {
        Line::Paragraph(items) => {
            let mut r = String::new();
            push_char(&mut r, '　');
            let body = convert_items::<C>(items);
            r.append(body.as_str());
            r.append(sep);
            proof {
                assert(Seq::<char>::empty().push('　') =~= seq!['　']);
            }
            r
        },
        Line::Conversation(items) => {
            let mut r = String::new();
            push_char(&mut r, ' ');
            let body = convert_items::<C>(items);
            r.append(body.as_str());
            r.append(sep);
            proof {
                assert(Seq::<char>::empty().push(' ') =~= seq![' ']);
            }
            r
        },
        Line::Quotation(items) => {
            let mut r = String::new();
            push_char(&mut r, '>');
            push_char(&mut r, ' ');
            let body = convert_items::<C>(items);
            r.append(body.as_str());
            r.append(sep);
            proof {
                assert(Seq::<char>::empty().push('>').push(' ') =~= seq!['>', ' ']);
            }
            r
        },
        Line::Comment(_) => sep.to_owned(),
    }
}

/// The concatenated renderings of a scene body.
pub open spec fn render_body<L: LineConverter>(body: Seq<LineModel>) -> Seq<char>
    decreases body.len(),
{
    if body.len() == 0 {
        Seq::empty()
    } else {
        render_line::<L>(body[0]) + render_body::<L>(body.drop_first())
    }
}

/// Renders one section into dialect-specific text.
pub trait SectionConverter {
    /// The line renderer this section renderer builds on.
    type ItemConverter: LineConverter;

    /// The dialect's heading form for a title.
    spec fn spec_title(title: Seq<char>) -> Seq<char>;

    /// Renders one section: a title to the dialect heading form, a scene —
    /// its metadata discarded for output purposes — to its concatenated line
    /// renderings.
    fn convert(section: Section) -> (r: String)
        ensures
            r@ == (match section@ {
                SectionModel::Title(t) => Self::spec_title(t),
                SectionModel::Scene(_, body) => render_body::<Self::ItemConverter>(body),
            }),
    ;
}

/// One section's rendering in the dialect of the section renderer `S`.
pub open spec fn render_section<S: SectionConverter + ?Sized>(section: SectionModel) -> Seq<
    char,
> {
    match section {
        SectionModel::Title(t) => S::spec_title(t),
        SectionModel::Scene(_, body) => render_body::<S::ItemConverter>(body),
    }
}

/// The shared structural algorithm behind every dialect's scene rendering.
pub fn convert_body_generic<L: LineConverter>(body: Vec<Line>) -> (r: String)
    ensures
        r@ == render_body::<L>(lines_model(body@)),
{
    let ghost orig = lines_model(body@);
    let mut body = body;
    let mut r = String::new();
    proof {
        assert(r@ + render_body::<L>(lines_model(body@)) =~= render_body::<L>(orig));
    }
    while body.len() > 0
        invariant
            render_body::<L>(orig) == r@ + render_body::<L>(lines_model(body@)),
        decreases body@.len(),
    {
        let ghost before = lines_model(body@);
        let line = body.remove(0);
        proof {
            assert(lines_model(body@) =~= before.drop_first());
            assert(before[0] == line@);
        }
        let piece = L::convert(line);
        proof {
            assert(r@ + (render_line::<L>(line@) + render_body::<L>(before.drop_first())) =~= (
            r@ + piece@) + render_body::<L>(before.drop_first()));
        }
        r.append(piece.as_str());
    }
    proof {
        assert(lines_model(body@) =~= Seq::<LineModel>::empty());
        assert(r@ + Seq::<char>::empty() =~= r@);
    }
    r
}

/// The renderings of the sections after a given point, over a section
/// renderer and a scene separator: a title is followed by a newline; a scene
/// is preceded by a bare newline where it directly follows a title — keeping
/// the title visually attached to its first scene — and by the scene
/// separator everywhere else.
pub open spec fn render_sections_with<S: SectionConverter>(
    sections: Seq<SectionModel>,
    sep: Seq<char>,
    prev_title: bool,
) -> Seq<char>
    decreases sections.len(),
{
    if sections.len() == 0 {
        Seq::empty()
    } else {
        let piece = match sections[0] {
            SectionModel::Title(_) => render_section::<S>(sections[0]) + seq!['\n'],
            SectionModel::Scene(_, _) => if prev_title {
                seq!['\n'] + render_section::<S>(sections[0])
            } else {
                sep + render_section::<S>(sections[0])
            },
        };
        piece + render_sections_with::<S>(sections.drop_first(), sep, sections[0] is Title)
    }
}

/// Renders a whole section sequence into dialect-specific text.
pub trait ManuscriptConverter {
    /// The section renderer this manuscript renderer builds on.
    type ItemConverter: SectionConverter;

    /// The dialect's scene separator.
    spec fn spec_scene_separator() -> Seq<char>;

    /// The scene separator, executable form.
    fn scene_separator() -> (r: String)
        ensures
            r@ == Self::spec_scene_separator(),
    ;

    /// Renders the section sequence.
    fn convert(sections: Vec<Section>) -> (r: String)
        ensures
            r@ == render_sections_with::<Self::ItemConverter>(
                sections_model(sections@),
                Self::spec_scene_separator(),
                false,
            ),
    ;
}

/// A whole manuscript's rendering in the dialect of the manuscript renderer
/// `M`.
pub open spec fn render_manuscript<M: ManuscriptConverter + ?Sized>(
    sections: Seq<SectionModel>,
) -> Seq<char> {
    render_sections_with::<M::ItemConverter>(sections, M::spec_scene_separator(), false)
}

/// The shared structural algorithm behind every dialect's manuscript
/// renderer, over the dialect's section renderer and scene separator.
pub fn convert_sections_with<S: SectionConverter>(sections: Vec<Section>, sep: &str) -> (r:
    String)
    ensures
        r@ == render_sections_with::<S>(sections_model(sections@), sep@, false),
{
    let ghost orig = sections_model(sections@);
    let mut sections = sections;
    let mut r = String::new();
    let mut prev_title = false;
    proof {
        assert(r@ + render_sections_with::<S>(sections_model(sections@), sep@, false)
            =~= render_sections_with::<S>(orig, sep@, false));
    }
    while sections.len() > 0
        invariant
            render_sections_with::<S>(orig, sep@, false) == r@ + render_sections_with::<S>(
                sections_model(sections@),
                sep@,
                prev_title,
            ),
        decreases sections@.len(),
    {
        let ghost before = sections_model(sections@);
        let section = sections.remove(0);
        proof {
            assert(sections_model(sections@) =~= before.drop_first());
            assert(before[0] == section@);
        }
        let is_title = match &section {
            Section::Title(_) => true,
            Section::Scene(_, _) => false,
        };
        proof {
            assert(is_title == (section@ is Title));
        }
        let ghost r_before = r@;
        let ghost rendered = render_section::<S>(before[0]);
        let piece = S::convert(section);
        proof {
            assert(piece@ == rendered);
        }
        if is_title {
            r.append(piece.as_str());
            push_char(&mut r, '\n');
            proof {
                assert(r@ =~= r_before + (rendered + seq!['\n']));
            }
        } else if prev_title {
            push_char(&mut r, '\n');
            r.append(piece.as_str());
            proof {
                assert(r@ =~= r_before + (seq!['\n'] + rendered));
            }
        } else {
            r.append(sep);
            r.append(piece.as_str());
            proof {
                assert(r@ =~= r_before + (sep@ + rendered));
            }
        }
        prev_title = is_title;
    }
    proof {
        assert(sections_model(sections@) =~= Seq::<SectionModel>::empty());
        assert(r@ + Seq::<char>::empty() =~= r@);
    }
    r
}

/// One line with its comment content blanked; any other line is unchanged.
pub open spec fn scrub_line(l: LineModel) -> LineModel {
    match l {
        LineModel::Comment(_) => LineModel::Comment(Seq::empty()),
        _ => l,
    }
}

/// One section with every comment line's content blanked.
pub open spec fn scrub_section(s: SectionModel) -> SectionModel {
    match s {
        SectionModel::Title(t) => SectionModel::Title(t),
        SectionModel::Scene(d, body) => SectionModel::Scene(
            d,
            body.map_values(|l: LineModel| scrub_line(l)),
        ),
    }
}

/// A section sequence with every comment line's content blanked.
pub open spec fn scrub_comments(sections: Seq<SectionModel>) -> Seq<SectionModel> {
    sections.map_values(|s: SectionModel| scrub_section(s))
}

/// A comment line's content never reaches a line rendering.
proof fn lemma_render_line_scrub<C: LineItemConverter>(l: LineModel, sep: Seq<char>)
    ensures
        render_line_with::<C>(scrub_line(l), sep) == render_line_with::<C>(l, sep),
{
}

/// A comment line's content never reaches a scene rendering.
proof fn lemma_render_body_scrub<L: LineConverter>(body: Seq<LineModel>)
    ensures
        render_body::<L>(body.map_values(|l: LineModel| scrub_line(l))) == render_body::<L>(
            body,
        ),
    decreases body.len(),
{
    let m = body.map_values(|l: LineModel| scrub_line(l));
    if body.len() == 0 {
        assert(m =~= Seq::<LineModel>::empty());
    } else {
        assert(m[0] == scrub_line(body[0]));
        assert(m.drop_first() =~= body.drop_first().map_values(|l: LineModel| scrub_line(l)));
        lemma_render_body_scrub::<L>(body.drop_first());
        lemma_render_line_scrub::<L::ItemConverter>(body[0], L::spec_line_separator());
        assert(render_body::<L>(m) == render_line::<L>(m[0]) + render_body::<L>(
            m.drop_first(),
        ));
    }
}

/// A comment line's content never reaches a section rendering.
proof fn lemma_render_section_scrub<S: SectionConverter>(s: SectionModel)
    ensures
        render_section::<S>(scrub_section(s)) == render_section::<S>(s),
{
    match s {
        SectionModel::Title(_) => {},
        SectionModel::Scene(_, body) => {
            lemma_render_body_scrub::<S::ItemConverter>(body);
        },
    }
}

/// Helper for [`lemma_comment_lines_never_rendered`], inducting over the
/// section sequence with the previous-section flag.
proof fn lemma_render_sections_scrub<S: SectionConverter>(
    sections: Seq<SectionModel>,
    sep: Seq<char>,
    prev_title: bool,
)
    ensures
        render_sections_with::<S>(scrub_comments(sections), sep, prev_title)
            == render_sections_with::<S>(sections, sep, prev_title),
    decreases sections.len(),
{
    let m = scrub_comments(sections);
    if sections.len() == 0 {
        assert(m =~= Seq::<SectionModel>::empty());
    } else {
        assert(m[0] == scrub_section(sections[0]));
        assert(m.drop_first() =~= scrub_comments(sections.drop_first()));
        assert((m[0] is Title) == (sections[0] is Title));
        lemma_render_section_scrub::<S>(sections[0]);
        lemma_render_sections_scrub::<S>(sections.drop_first(), sep, sections[0] is Title);
    }
}

/// Comment lines never appear in rendered output, for any dialect and any
/// section sequence: blanking the content of every comment line leaves the
/// whole manuscript rendering unchanged, so no comment content ever reaches
/// the output.
pub proof fn lemma_comment_lines_never_rendered<M: ManuscriptConverter>(
    sections: Seq<SectionModel>,
)
    ensures
        render_manuscript::<M>(scrub_comments(sections)) == render_manuscript::<M>(sections),
{
    lemma_render_sections_scrub::<M::ItemConverter>(
        sections,
        M::spec_scene_separator(),
        false,
    );
}

/// Rendering a title directly followed by a scene places no scene separator
/// between them: the title block and a bare newline keep the title attached
/// to its first scene.
pub proof fn lemma_title_then_scene_no_separator<M: ManuscriptConverter>(
    t: Seq<char>,
    d: crate::tokens::section::DocumentModel,
    body: Seq<LineModel>,
)
    ensures
        render_manuscript::<M>(seq![SectionModel::Title(t), SectionModel::Scene(d, body)]) == (
        render_section::<M::ItemConverter>(SectionModel::Title(t)) + seq!['\n']) + (seq!['\n']
            + render_section::<M::ItemConverter>(SectionModel::Scene(d, body))),
{
    let ss = seq![SectionModel::Title(t), SectionModel::Scene(d, body)];
    let sep = M::spec_scene_separator();
    let rest = ss.drop_first();
    assert(rest =~= seq![SectionModel::Scene(d, body)]);
    assert(rest.drop_first() =~= Seq::<SectionModel>::empty());
    assert(ss[0] == SectionModel::Title(t));
    assert(rest[0] == SectionModel::Scene(d, body));
    let head_piece = render_section::<M::ItemConverter>(ss[0]) + seq!['\n'];
    let tail = seq!['\n'] + render_section::<M::ItemConverter>(rest[0]);
    assert(render_sections_with::<M::ItemConverter>(rest.drop_first(), sep, false)
        =~= Seq::<char>::empty());
    assert(render_sections_with::<M::ItemConverter>(rest, sep, true) == tail
        + Seq::<char>::empty());
    assert(tail + Seq::<char>::empty() =~= tail);
    assert(render_sections_with::<M::ItemConverter>(ss, sep, false) == head_piece + tail);
}

/// Rendering two adjacent scenes places exactly one scene separator between
/// them — and one before the first, which follows no title.
pub proof fn lemma_scene_then_scene_one_separator<M: ManuscriptConverter>(
    d1: crate::tokens::section::DocumentModel,
    b1: Seq<LineModel>,
    d2: crate::tokens::section::DocumentModel,
    b2: Seq<LineModel>,
)
    ensures
        render_manuscript::<M>(seq![SectionModel::Scene(d1, b1), SectionModel::Scene(d2, b2)])
            == (M::spec_scene_separator() + render_section::<M::ItemConverter>(
            SectionModel::Scene(d1, b1),
        )) + (M::spec_scene_separator() + render_section::<M::ItemConverter>(
            SectionModel::Scene(d2, b2),
        )),
{
    let ss = seq![SectionModel::Scene(d1, b1), SectionModel::Scene(d2, b2)];
    let sep = M::spec_scene_separator();
    let rest = ss.drop_first();
    assert(rest =~= seq![SectionModel::Scene(d2, b2)]);
    assert(rest.drop_first() =~= Seq::<SectionModel>::empty());
    assert(ss[0] == SectionModel::Scene(d1, b1));
    assert(rest[0] == SectionModel::Scene(d2, b2));
    let head_piece = sep + render_section::<M::ItemConverter>(ss[0]);
    let tail = sep + render_section::<M::ItemConverter>(rest[0]);
    assert(render_sections_with::<M::ItemConverter>(rest.drop_first(), sep, false)
        =~= Seq::<char>::empty());
    assert(render_sections_with::<M::ItemConverter>(rest, sep, false) == tail
        + Seq::<char>::empty());
    assert(tail + Seq::<char>::empty() =~= tail);
    assert(render_sections_with::<M::ItemConverter>(ss, sep, false) == head_piece + tail);
}

} // verus!
