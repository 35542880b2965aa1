use rstrial::diagnostics::DiagnosticKind;
use rstrial::parser::manuscript_parser::ManuscriptParser;
use rstrial::tokens::line::Line;
use rstrial::tokens::line_item::{LineItem, Terminator};
use rstrial::tokens::section::{Document, Manuscript, Section};

#[test]
fn manuscript_parser_test_parse() {
    let cases = vec![(
        "# タイトル\n以下、本文\n@tags 猫/夏目漱石\n```第一シーン\n吾輩は{猫|ねこ}である。名前は{まだ|.}無い。\nどこで生まれたのかとんと見当が付かぬ。\n```\n以上本文\n```第二シーン\nにゃあにゃあにゃあ。\n```\n",
        vec![
            Section::Title("タイトル".to_string()),
            Section::Scene(
                Document::new(
                    "第一シーン".to_string(),
                    None,
                    vec!["猫".to_string(), "夏目漱石".to_string()],
                ),
                vec![
                    Line::Paragraph(vec![
                        LineItem::Text("吾輩は".to_string()),
                        LineItem::TextWithRuby(("猫".to_string(), "ねこ".to_string())),
                        LineItem::Text("である".to_string()),
                        LineItem::EndOfSentence(Terminator::Normal("。".to_string())),
                        LineItem::Text("名前は".to_string()),
                        LineItem::TextWithSesame(("まだ".to_string(), '・')),
                        LineItem::Text("無い".to_string()),
                        LineItem::EndOfSentence(Terminator::Normal("。".to_string())),
                    ]),
                    Line::Paragraph(vec![
                        LineItem::Text("どこで生まれたのかとんと見当が付かぬ".to_string()),
                        LineItem::EndOfSentence(Terminator::Normal("。".to_string())),
                    ]),
                ],
            ),
            Section::Scene(
                Document::new("第二シーン".to_string(), None, vec![]),
                vec![Line::Paragraph(vec![
                    LineItem::Text("にゃあにゃあにゃあ".to_string()),
                    LineItem::EndOfSentence(Terminator::Normal("。".to_string())),
                ])],
            ),
        ],
    )];

    for (input, expected) in cases {
        let manuscript_parser = ManuscriptParser::new(input);
        let (actual, diags) = manuscript_parser.parse();
        assert_eq!(actual, expected);
        assert!(diags.is_empty());
    }
}

#[test]
fn tags_attach_to_next_scene_only() {
    let source = "@tags a/b\n```s1\nx\n```\n```s2\ny\n```\n";
    let (sections, diags) = ManuscriptParser::new(source).parse();
    assert!(diags.is_empty());
    assert_eq!(sections.len(), 2);
    match &sections[0] {
        Section::Scene(doc, _) => {
            assert_eq!(doc.tags, vec!["a".to_string(), "b".to_string()]);
        }
        other => panic!("expected a scene, got {:?}", other),
    }
    match &sections[1] {
        Section::Scene(doc, _) => assert!(doc.tags.is_empty()),
        other => panic!("expected a scene, got {:?}", other),
    }
}

#[test]
fn one_title_and_n_scenes_yield_n_plus_one_sections() {
    let source = "# T\nignored prose\n```one\na\n```\n```two\nb\n```\n";
    let (sections, _) = ManuscriptParser::new(source).parse();
    assert_eq!(sections.len(), 3);
    assert!(matches!(sections[0], Section::Title(_)));
    assert!(matches!(sections[1], Section::Scene(_, _)));
    assert!(matches!(sections[2], Section::Scene(_, _)));
    match (&sections[1], &sections[2]) {
        (Section::Scene(d1, _), Section::Scene(d2, _)) => {
            assert_eq!(d1.title, "one");
            assert_eq!(d2.title, "two");
        }
        _ => unreachable!(),
    }
}

#[test]
fn unterminated_fence_emits_partial_scene_and_diagnostic() {
    let source = "```open\nline one\nline two";
    let (sections, diags) = ManuscriptParser::new(source).parse();
    assert_eq!(sections.len(), 1);
    match &sections[0] {
        Section::Scene(doc, body) => {
            assert_eq!(doc.title, "open");
            assert_eq!(body.len(), 2);
        }
        other => panic!("expected a scene, got {:?}", other),
    }
    assert_eq!(diags.len(), 1);
    assert_eq!(diags[0].kind, DiagnosticKind::UnterminatedFence);
    assert_eq!(diags[0].line, 0);
    assert_eq!(diags[0].snippet, "open");
}

#[test]
fn title_line_is_trimmed() {
    let (sections, _) = ManuscriptParser::new("#  padded title \t\n").parse();
    assert_eq!(sections, vec![Section::Title("padded title".to_string())]);
}

#[test]
fn bare_tags_directive_is_a_no_op() {
    let source = "@tags\n@tags \n```s\nx\n```\n";
    let (sections, diags) = ManuscriptParser::new(source).parse();
    assert!(diags.is_empty());
    match &sections[0] {
        Section::Scene(doc, _) => assert!(doc.tags.is_empty()),
        other => panic!("expected a scene, got {:?}", other),
    }
}

#[test]
fn annotation_diagnostics_carry_source_line_numbers() {
    let source = "# T\n```s\nfine\nbad {oops} line\n```\n";
    let (sections, diags) = ManuscriptParser::new(source).parse();
    assert_eq!(sections.len(), 2);
    assert_eq!(diags.len(), 1);
    assert_eq!(diags[0].kind, DiagnosticKind::MalformedAnnotation);
    assert_eq!(diags[0].line, 3);
    assert_eq!(diags[0].snippet, "oops");
}

#[test]
fn manuscript_collects_sections() {
    let mut m = Manuscript::new("T".to_string());
    assert_eq!(m.title, "T");
    assert!(m.sections.is_empty());
    m.push_section(Section::Title("T".to_string()));
    m.push_section(Section::Scene(
        Document::new("s".to_string(), None, vec![]),
        vec![],
    ));
    assert_eq!(m.sections.len(), 2);
}

#[test]
fn add_sums() {
    assert_eq!(rstrial::add(2, 2), 4);
}
