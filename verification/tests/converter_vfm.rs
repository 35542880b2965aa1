use rstrial::converter::vfm::{
    convert, VfmLineConverter, VfmLineItemConverter, VfmManuscriptConverter,
    VfmSectionConverter,
};
use rstrial::converter::{
    LineConverter, LineItemConverter, ManuscriptConverter, SectionConverter,
};
use rstrial::tokens::line::Line;
use rstrial::tokens::line_item::{LineItem, Terminator};
use rstrial::tokens::section::{Document, Section};

#[test]
fn test_convert_paragraph() {
    let line = Line::Paragraph(vec![
        LineItem::Text("我が輩は".to_string()),
        LineItem::Comma("、".to_string()),
        LineItem::Comment("猫である。".to_string()),
        LineItem::TextWithRuby(("名前".to_string(), "なまえ".to_string())),
        LineItem::Text("はまだ無い".to_string()),
        LineItem::EndOfSentence(Terminator::Normal("。".to_string())),
    ]);
    let result = VfmLineConverter::convert(line);
    assert_eq!(result, "　我が輩は、{名前|なまえ}はまだ無い。\n");
}

#[test]
fn test_convert_conversation() {
    let line = Line::Conversation(vec![
        LineItem::Text("「我が輩は".to_string()),
        LineItem::Comma("、".to_string()),
        LineItem::Comment("猫である。".to_string()),
        LineItem::TextWithRuby(("名前".to_string(), "なまえ".to_string())),
        LineItem::Text("はまだ無い".to_string()),
        LineItem::EndOfSentence(Terminator::Normal("」".to_string())),
    ]);
    let result = VfmLineConverter::convert(line);
    assert_eq!(result, " 「我が輩は、{名前|なまえ}はまだ無い」\n");
}

#[test]
fn test_convert_text() {
    let item = LineItem::Text("text".to_string());
    let result = convert(item);
    assert_eq!(result, "text");
}

#[test]
fn test_convert_comma() {
    let item = LineItem::Comma(",".to_string());
    let result = convert(item);
    assert_eq!(result, ",");
}

#[test]
fn test_convert_comment() {
    let item = LineItem::Comment("comment".to_string());
    let result = convert(item);
    assert_eq!(result, "");
}

#[test]
fn test_convert_rich_text() {
    let item = LineItem::TextWithRuby(("text".to_string(), "ruby".to_string()));
    let result = convert(item);
    assert_eq!(result, "{text|ruby}");
}

#[test]
fn test_convert_end_of_sentence() {
    let item = LineItem::EndOfSentence(Terminator::Normal(".".to_string()));
    let result = convert(item);
    assert_eq!(result, ".");
}

#[test]
fn test_convert_end_of_paragraph() {
    // The end of a paragraph renders as the dialect's line terminator.
    let result = VfmLineConverter::convert(Line::Paragraph(vec![]));
    assert_eq!(result, "　\n");
    assert_eq!(VfmLineConverter::line_separator(), "\n");
}

#[test]
fn test_convert_end_of_section() {
    let item = LineItem::EndOfSection("".to_string());
    let result = convert(item);
    assert_eq!(result, "\n");
}

#[test]
fn test_convert_eof() {
    // Nothing remains to render at the end of the input: an empty section
    // sequence renders to the empty string.
    let result = VfmManuscriptConverter::convert(vec![]);
    assert_eq!(result, "");
}

#[test]
fn test_convert_sesame_keeps_source_form() {
    let item = LineItem::TextWithSesame(("まだ".to_string(), '・'));
    assert_eq!(convert(item), "{まだ|.}");
}

#[test]
fn ruby_token_renders_markdown_form() {
    let item = LineItem::TextWithRuby(("猫".to_string(), "ねこ".to_string()));
    assert_eq!(VfmLineItemConverter::convert(item), "{猫|ねこ}");
}

#[test]
fn exclamatory_sentence_end_renders_literally() {
    let item = LineItem::EndOfSentence(Terminator::Exclamation("！？".to_string()));
    assert_eq!(convert(item), "！？");
}

#[test]
fn section_title_renders_to_heading() {
    let r = VfmSectionConverter::convert(Section::Title("T".to_string()));
    assert_eq!(r, "# T\n");
}

#[test]
fn manuscript_places_blank_line_between_scenes_but_not_after_title() {
    let scene = |name: &str, text: &str| {
        Section::Scene(
            Document::new(name.to_string(), None, vec![]),
            vec![Line::Paragraph(vec![LineItem::Text(text.to_string())])],
        )
    };
    let out = VfmManuscriptConverter::convert(vec![scene("one", "x"), scene("two", "y")]);
    assert_eq!(out, "\n\n　x\n\n\n　y\n");
    let out = VfmManuscriptConverter::convert(vec![
        Section::Title("T".to_string()),
        scene("one", "x"),
    ]);
    assert_eq!(out, "# T\n\n\n　x\n");
}
