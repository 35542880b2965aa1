//! Sections of a manuscript: titles and scenes, and their models.

use vstd::prelude::*;

use crate::tokens::line::{lines_model, Line, LineModel};

verus! {

/// A whole manuscript: a title and its sections in source order.
#[derive(Debug, PartialEq, Eq)]
pub struct Manuscript {
    pub title: String,
    pub sections: Vec<Section>,
}

/// Model of a [`Manuscript`].
pub struct ManuscriptModel {
    pub title: Seq<char>,
    pub sections: Seq<SectionModel>,
}

impl View for Manuscript {
    type V = ManuscriptModel;

    open spec fn view(&self) -> ManuscriptModel {
        ManuscriptModel { title: self.title@, sections: sections_model(self.sections@) }
    }
}

impl Manuscript {
    /// An empty manuscript with the given title.
    pub fn new(title: String) -> (m: Self)
        ensures
            m@.title == title@,
            m@.sections == Seq::<SectionModel>::empty(),
    {
        let m = Self { title, sections: Vec::new() };
        proof {
            assert(sections_model(m.sections@) =~= Seq::<SectionModel>::empty());
        }
        m
    }

    /// Appends one section at the end.
    pub fn push_section(&mut self, section: Section)
        ensures
            final(self)@.title == old(self)@.title,
            final(self)@.sections == old(self)@.sections.push(section@),
    {
        let ghost before = self.sections@;
        self.sections.push(section);
        proof {
            assert(sections_model(before.push(section)) =~= sections_model(before).push(
                section@,
            ));
        }
    }
}

/// One section of a manuscript.
#[derive(Debug, PartialEq, Eq)]
pub enum Section {
    /// A manuscript title line.
    Title(String),
    /// A fenced scene: its metadata and its body lines.
    Scene(Document, Vec<Line>),
}

/// Model of a [`Section`].
pub enum SectionModel {
    Title(Seq<char>),
    Scene(DocumentModel, Seq<LineModel>),
}

impl View for Section {
    type V = SectionModel;

    open spec fn view(&self) -> SectionModel {
        match self {
            Section::Title(t) => SectionModel::Title(t@),
            Section::Scene(d, body) => SectionModel::Scene(d@, lines_model(body@)),
        }
    }
}

/// The models of a sequence of sections.
pub open spec fn sections_model(sections: Seq<Section>) -> Seq<SectionModel> {
    sections.map_values(|s: Section| s@)
}

/// Mapping to models commutes with appending one section.
pub proof fn lemma_sections_model_push(sections: Seq<Section>, s: Section)
    ensures
        sections_model(sections.push(s)) == sections_model(sections).push(s@),
{
    assert(sections_model(sections.push(s)) =~= sections_model(sections).push(s@));
}

/// Scene metadata: the scene title, an optional body text, and the tags bound
/// to the scene by the directive lines that preceded its fence.
#[derive(Debug, PartialEq, Eq)]
pub struct Document {
    pub title: String,
    pub body: Option<String>,
    pub tags: Vec<String>,
}

/// Model of a [`Document`].
pub struct DocumentModel {
    pub title: Seq<char>,
    pub body: Option<Seq<char>>,
    pub tags: Seq<Seq<char>>,
}

/// The models of a tag list.
pub open spec fn tags_model(tags: Seq<String>) -> Seq<Seq<char>> {
    tags.map_values(|t: String| t@)
}

impl View for Document {
    type V = DocumentModel;

    open spec fn view(&self) -> DocumentModel {
        DocumentModel {
            title: self.title@,
            body: match self.body {
                Some(ref b) => Some(b@),
                None => None,
            },
            tags: tags_model(self.tags@),
        }
    }
}

impl Document {
    /// A document with the given title, body and tags.
    pub fn new(title: String, body: Option<String>, tags: Vec<String>) -> (d: Self)
        ensures
            d@.title == title@,
            d@.body == (match body {
                Some(b) => Some(b@),
                None => None::<Seq<char>>,
            }),
            d@.tags == tags_model(tags@),
    {
        Self { title, body, tags }
    }
}

} // verus!
