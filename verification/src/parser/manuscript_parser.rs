//! The manuscript parser: full source text to an ordered section sequence.
//!
//! Outside a scene, a `# ` line emits a title, an `@tags ` line accumulates
//! tags for the next scene, and a triple-backtick line opens a fenced scene
//! that binds the accumulated tags.  Inside a scene, lines buffer until a
//! bare triple-backtick closes the fence; the buffered block then goes
//! through the line aggregator.  A fence still open at the end of the input
//! emits the partial scene together with a diagnostic, rather than dropping
//! authored content; orphaned tags at the end of the parse are discarded.

use vstd::prelude::*;
use vstd::string::*;

use crate::diagnostics::{diags_model, lemma_diags_model_push, DiagModel, Diagnostic,
    DiagnosticKind};
use crate::parser::section_parser::{aggregate, aggregate_diags_model, aggregate_lines_model};
use crate::text::{split_lines, split_lines_vec, split_on, split_on_vec, strings_model,
    substring_chars, to_chars, trim_chars, trim_model};
use crate::tokens::section::{lemma_sections_model_push, sections_model, Document, DocumentModel,
    Section, SectionModel, tags_model};

verus! {

/// Whether the line declares the manuscript title.
pub open spec fn is_title_line(s: Seq<char>) -> bool {
    s.len() >= 2 && s[0] == '#' && s[1] == ' '
}

/// Whether the line opens a fenced scene (three backticks, then the scene
/// title).
pub open spec fn is_fence_line(s: Seq<char>) -> bool {
    s.len() >= 3 && s[0] == '`' && s[1] == '`' && s[2] == '`'
}

/// Whether the line closes a fenced scene: exactly three backticks.
pub open spec fn is_closing_fence(s: Seq<char>) -> bool {
    s.len() == 3 && s[0] == '`' && s[1] == '`' && s[2] == '`'
}

/// Whether the line is a tag directive with content after `@tags `.  A bare
/// or empty directive is a no-op, never an error.
pub open spec fn is_tags_line(s: Seq<char>) -> bool {
    s.len() > 6 && s[0] == '@' && s[1] == 't' && s[2] == 'a' && s[3] == 'g' && s[4] == 's'
        && s[5] == ' '
}

/// The whole condition of the parser: whether a fence is open, the tag
/// accumulator, the pending scene's title and tags, the buffered body lines,
/// where the fence opened, and everything emitted so far.
#[verifier::ext_equal]
pub struct ParseConfig {
    pub in_scene: bool,
    pub tags: Seq<Seq<char>>,
    pub scene_title: Seq<char>,
    pub scene_tags: Seq<Seq<char>>,
    pub body: Seq<Seq<char>>,
    pub open_line: int,
    pub sections: Seq<SectionModel>,
    pub diags: Seq<DiagModel>,
}

/// The parser before any line.
pub open spec fn parse_init() -> ParseConfig {
    ParseConfig {
        in_scene: false,
        tags: Seq::empty(),
        scene_title: Seq::empty(),
        scene_tags: Seq::empty(),
        body: Seq::empty(),
        open_line: 0,
        sections: Seq::empty(),
        diags: Seq::empty(),
    }
}

/// The metadata of the pending scene.
pub open spec fn scene_doc(cfg: ParseConfig) -> DocumentModel {
    DocumentModel { title: cfg.scene_title, body: None, tags: cfg.scene_tags }
}

/// Closing the pending scene: its buffered block goes through the line
/// aggregator, and the scene is emitted with its metadata.
pub open spec fn close_scene(cfg: ParseConfig) -> ParseConfig {
    ParseConfig {
        in_scene: false,
        tags: cfg.tags,
        scene_title: Seq::empty(),
        scene_tags: Seq::empty(),
        body: Seq::empty(),
        open_line: cfg.open_line,
        sections: cfg.sections.push(
            SectionModel::Scene(scene_doc(cfg), aggregate_lines_model(cfg.body)),
        ),
        diags: cfg.diags + aggregate_diags_model(cfg.body, cfg.open_line + 1),
    }
}

/// One transition of the parser on the line at index `i`.
pub open spec fn parse_step(cfg: ParseConfig, line: Seq<char>, i: int) -> ParseConfig {
    if !cfg.in_scene {
        if is_title_line(line) {
            ParseConfig {
                sections: cfg.sections.push(SectionModel::Title(trim_model(line.skip(2)))),
                ..cfg
            }
        } else if is_fence_line(line) {
            ParseConfig {
                in_scene: true,
                tags: Seq::empty(),
                scene_title: line.skip(3),
                scene_tags: cfg.tags,
                body: Seq::empty(),
                open_line: i,
                sections: cfg.sections,
                diags: cfg.diags,
            }
        } else if is_tags_line(line) {
            ParseConfig { tags: cfg.tags + split_on(line.skip(6), '/'), ..cfg }
        } else {
            cfg
        }
    } else {
        if is_closing_fence(line) {
            close_scene(cfg)
        } else {
            ParseConfig { body: cfg.body.push(line), ..cfg }
        }
    }
}

/// The end of the input: an open fence emits its partial scene and an
/// unterminated-fence diagnostic naming the scene title.
pub open spec fn parse_finish(cfg: ParseConfig) -> ParseConfig {
    if cfg.in_scene {
        let closed = close_scene(cfg);
        ParseConfig {
            diags: closed.diags.push(
                DiagModel {
                    kind: DiagnosticKind::UnterminatedFence,
                    line: cfg.open_line,
                    offset: 0,
                    snippet: cfg.scene_title,
                },
            ),
            ..closed
        }
    } else {
        cfg
    }
}

/// The parser run over `lines` from index `i`, then finished.
pub open spec fn parse_run(lines: Seq<Seq<char>>, i: int, cfg: ParseConfig) -> ParseConfig
    decreases lines.len() - i,
{
    if i < 0 || i >= lines.len() {
        parse_finish(cfg)
    } else {
        parse_run(lines, i + 1, parse_step(cfg, lines[i], i))
    }
}

/// The sections and diagnostics of a whole source text.
pub open spec fn parse_manuscript(s: Seq<char>) -> ParseConfig {
    parse_run(split_lines(s), 0, parse_init())
}

/// How many sections a line sequence yields: one for each title line met
/// outside a scene, one for each closed fence, and one for a fence still
/// open at the end of the input.
pub open spec fn section_count(lines: Seq<Seq<char>>, in_scene: bool) -> nat
    decreases lines.len(),
{
    if lines.len() == 0 {
        if in_scene {
            1
        } else {
            0
        }
    } else if !in_scene {
        if is_title_line(lines[0]) {
            1 + section_count(lines.drop_first(), false)
        } else if is_fence_line(lines[0]) {
            section_count(lines.drop_first(), true)
        } else {
            section_count(lines.drop_first(), false)
        }
    } else {
        if is_closing_fence(lines[0]) {
            1 + section_count(lines.drop_first(), false)
        } else {
            section_count(lines.drop_first(), true)
        }
    }
}

/// Helper for [`lemma_parse_yields_one_section_per_unit`], inducting over the
/// remaining lines.
proof fn lemma_parse_run_count(lines: Seq<Seq<char>>, i: int, cfg: ParseConfig)
    requires
        0 <= i <= lines.len(),
    ensures
        parse_run(lines, i, cfg).sections.len() == cfg.sections.len() + section_count(
            lines.skip(i),
            cfg.in_scene,
        ),
    decreases lines.len() - i,
{
    if i == lines.len() {
        assert(lines.skip(i) =~= Seq::<Seq<char>>::empty());
    } else {
        let stepped = parse_step(cfg, lines[i], i);
        lemma_parse_run_count(lines, i + 1, stepped);
        assert(lines.skip(i)[0] == lines[i]);
        assert(lines.skip(i).drop_first() =~= lines.skip(i + 1));
    }
}

/// A parse yields exactly one section for each title line and each fenced
/// scene — closed or left open at the end of the input — in source order: a
/// manuscript of one title line and N well-formed fenced scenes yields
/// exactly N + 1 sections.
pub proof fn lemma_parse_yields_one_section_per_unit(s: Seq<char>)
    ensures
        parse_manuscript(s).sections.len() == section_count(split_lines(s), false),
{
    lemma_parse_run_count(split_lines(s), 0, parse_init());
    assert(split_lines(s).skip(0) =~= split_lines(s));
}

/// The working condition of the executable parser.
struct Builder {
    in_scene: bool,
    tags: Vec<String>,
    scene_title: String,
    scene_tags: Vec<String>,
    body: Vec<String>,
    open_line: usize,
    sections: Vec<Section>,
    diags: Vec<Diagnostic>,
}

impl Builder {
    /// The parser condition this builder is in.
    spec fn model(&self) -> ParseConfig {
        ParseConfig {
            in_scene: self.in_scene,
            tags: strings_model(self.tags@),
            scene_title: self.scene_title@,
            scene_tags: strings_model(self.scene_tags@),
            body: strings_model(self.body@),
            open_line: self.open_line as int,
            sections: sections_model(self.sections@),
            diags: diags_model(self.diags@),
        }
    }

    /// While a fence is open, its body lines all lie before line `next`.
    spec fn wf(&self, next: int) -> bool {
        self.in_scene ==> self.open_line as int + 1 + self.body@.len() <= next
    }

    /// Closes the pending scene.
    fn close_scene_now(&mut self)
        requires
            old(self).open_line as int + 1 + old(self).body@.len() <= usize::MAX,
        ensures
            final(self).model() == close_scene(old(self).model()),
    {
        let (body_lines, mut body_diags) = aggregate(&self.body, self.open_line + 1);
        let mut title = String::new();
        core::mem::swap(&mut title, &mut self.scene_title);
        let mut stags: Vec<String> = Vec::new();
        core::mem::swap(&mut stags, &mut self.scene_tags);
        let doc = Document::new(title, None, stags);
        let sec = Section::Scene(doc, body_lines);
        proof {
            lemma_sections_model_push(self.sections@, sec);
            assert(tags_model(old(self).scene_tags@) =~= strings_model(old(self).scene_tags@));
            assert(sec@ == SectionModel::Scene(
                scene_doc(old(self).model()),
                aggregate_lines_model(old(self).model().body),
            ));
        }
        self.sections.push(sec);
        proof {
            assert(diags_model(self.diags@ + body_diags@) =~= diags_model(self.diags@)
                + diags_model(body_diags@));
        }
        self.diags.append(&mut body_diags);
        self.body.clear();
        self.in_scene = false;
        proof {
            assert(self.model() =~= close_scene(old(self).model()));
        }
    }

    /// One transition on the line at index `i`.
    fn feed(&mut self, line: &String, i: usize)
        requires
            old(self).wf(i as int),
        ensures
            final(self).model() == parse_step(old(self).model(), line@, i as int),
            final(self).wf(i + 1 as int),
    {
        let chars = to_chars(line.as_str());
        if !self.in_scene {
            if chars.len() >= 2 && chars[0] == '#' && chars[1] == ' ' {
                let title = trim_chars(&chars, 2);
                let sec = Section::Title(title);
                proof {
                    lemma_sections_model_push(self.sections@, sec);
                }
                self.sections.push(sec);
            } else if chars.len() >= 3 && chars[0] == '`' && chars[1] == '`' && chars[2] == '`' {
                self.in_scene = true;
                self.scene_title = substring_chars(&chars, 3, chars.len());
                let mut t: Vec<String> = Vec::new();
                core::mem::swap(&mut t, &mut self.tags);
                self.scene_tags = t;
                self.body.clear();
                self.open_line = i;
                proof {
                    assert(chars@.subrange(3, chars@.len() as int) =~= chars@.skip(3));
                    assert(strings_model(self.body@) =~= Seq::<Seq<char>>::empty());
                    assert(strings_model(self.tags@) =~= Seq::<Seq<char>>::empty());
                }
            } else if chars.len() > 6 && chars[0] == '@' && chars[1] == 't' && chars[2] == 'a'
                && chars[3] == 'g' && chars[4] == 's' && chars[5] == ' ' {
                let mut pieces = split_on_vec(&chars, 6, '/');
                proof {
                    assert(strings_model(self.tags@ + pieces@) =~= strings_model(self.tags@)
                        + strings_model(pieces@));
                }
                self.tags.append(&mut pieces);
            }
        } else {
            if chars.len() == 3 && chars[0] == '`' && chars[1] == '`' && chars[2] == '`' {
                self.close_scene_now();
            } else {
                proof {
                    assert(strings_model(self.body@.push(*line)) =~= strings_model(
                        self.body@,
                    ).push(line@));
                }
                self.body.push(line.clone());
            }
        }
        proof {
            assert(self.model() =~= parse_step(old(self).model(), line@, i as int));
        }
    }

    /// The end-of-input flush.
    fn finish(&mut self)
        requires
            old(self).in_scene ==> old(self).open_line as int + 1 + old(self).body@.len()
                <= usize::MAX,
        ensures
            final(self).model() == parse_finish(old(self).model()),
    {
        if self.in_scene {
            let title = self.scene_title.clone();
            let line = self.open_line;
            self.close_scene_now();
            let d = Diagnostic {
                kind: DiagnosticKind::UnterminatedFence,
                line,
                offset: 0,
                snippet: title,
            };
            proof {
                lemma_diags_model_push(self.diags@, d);
            }
            self.diags.push(d);
            proof {
                assert(self.model() =~= parse_finish(old(self).model()));
            }
        }
    }
}

/// Parser for one whole manuscript source.
pub struct ManuscriptParser {
    pub source: String,
}

impl ManuscriptParser {
    /// A parser over the given source text.
    pub fn new(section: &str) -> (p: Self)
        ensures
            p.source@ == section@,
    {
        Self { source: section.to_owned() }
    }

    /// The sections of the manuscript in source order, together with the
    /// diagnostics of the whole parse.
    pub fn parse(&self) -> (r: (Vec<Section>, Vec<Diagnostic>))
        ensures
            sections_model(r.0@) == parse_manuscript(self.source@).sections,
            diags_model(r.1@) == parse_manuscript(self.source@).diags,
    {
        let chars = to_chars(self.source.as_str());
        let lines = split_lines_vec(&chars);
        let ghost lm = split_lines(self.source@);
        let mut b = Builder {
            in_scene: false,
            tags: Vec::new(),
            scene_title: String::new(),
            scene_tags: Vec::new(),
            body: Vec::new(),
            open_line: 0,
            sections: Vec::new(),
            diags: Vec::new(),
        };
        proof {
            assert(b.model() =~= parse_init());
        }
        let mut i: usize = 0;
        while i < lines.len()
            invariant
                i <= lines@.len(),
                lm == split_lines(self.source@),
                strings_model(lines@) == lm,
                b.wf(i as int),
                parse_run(lm, i as int, b.model()) == parse_manuscript(self.source@),
            decreases lines@.len() - i,
        {
            proof {
                assert(lm[i as int] == lines@[i as int]@);
            }
            let line = &lines[i];
            b.feed(line, i);
            i += 1;
        }
        let n = lines.len();
        proof {
            assert(lines@.len() == n as int);
        }
        b.finish();
        (b.sections, b.diags)
    }
}

} // verus!
