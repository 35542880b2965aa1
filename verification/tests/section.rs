use rstrial::parser::section_parser::SectionParser;
use rstrial::tokens::line::Line;
use rstrial::tokens::line_item::{LineItem, Terminator};

#[test]
fn section_parser_test_parse() {
    let section = "我が輩は猫である。\n名前はまだ無い。どこで生まれたのかとんと見当が付かぬ。\n// 猫でなく犬にすることも検討\n「にゃーにゃー」";
    let parser = SectionParser::new(section);
    let (actual, diags) = parser.parse();
    let expected = vec![
        Line::Paragraph(vec![
            LineItem::Text("我が輩は猫である".to_string()),
            LineItem::EndOfSentence(Terminator::Normal("。".to_string())),
        ]),
        Line::Paragraph(vec![
            LineItem::Text("名前はまだ無い".to_string()),
            LineItem::EndOfSentence(Terminator::Normal("。".to_string())),
            LineItem::Text("どこで生まれたのかとんと見当が付かぬ".to_string()),
            LineItem::EndOfSentence(Terminator::Normal("。".to_string())),
        ]),
        Line::Comment(" 猫でなく犬にすることも検討".to_string()),
        Line::Conversation(vec![
            LineItem::Text("「にゃーにゃー".to_string()),
            LineItem::EndOfSentence(Terminator::Normal("」".to_string())),
        ]),
    ];
    assert_eq!(actual, expected);
    assert!(diags.is_empty());
}

#[test]
fn blank_line_yields_empty_paragraph() {
    let parser = SectionParser::new("a\n\nb");
    let (actual, _) = parser.parse();
    assert_eq!(
        actual,
        vec![
            Line::Paragraph(vec![LineItem::Text("a".to_string())]),
            Line::Paragraph(vec![]),
            Line::Paragraph(vec![LineItem::Text("b".to_string())]),
        ]
    );
}

#[test]
fn diagnostics_carry_line_numbers() {
    let parser = SectionParser::new("ok\nbad {nope} here\n// {nope} ignored in comments");
    let (lines, diags) = parser.parse();
    assert_eq!(lines.len(), 3);
    assert_eq!(diags.len(), 1);
    assert_eq!(diags[0].line, 1);
    assert_eq!(diags[0].offset, 4);
    assert_eq!(diags[0].snippet, "nope");
}
