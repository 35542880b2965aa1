use rstrial::converter::aozora::{
    convert, AozoraLineItemConverter, AozoraManuscriptConverter, AozoraSectionConverter,
};
use rstrial::converter::{LineItemConverter, ManuscriptConverter, SectionConverter};
use rstrial::tokens::line::Line;
use rstrial::tokens::line_item::{LineItem, Terminator};
use rstrial::tokens::section::{Document, Section};

#[test]
fn line_converter_test_convert_paragraph() {
    let line = Line::Paragraph(vec![
        LineItem::Text("我が輩は".to_string()),
        LineItem::Comma("、".to_string()),
        LineItem::Comment("猫である。".to_string()),
        LineItem::TextWithRuby(("名前".to_string(), "なまえ".to_string())),
        LineItem::Text("はまだ無い".to_string()),
        LineItem::EndOfSentence(Terminator::Normal("。".to_string())),
    ]);
    let result = convert(line);
    assert_eq!(result, "　我が輩は、|名前《なまえ》はまだ無い。\n");
}

#[test]
fn line_converter_test_convert_conversation() {
    let line = Line::Conversation(vec![
        LineItem::Text("「我が輩は".to_string()),
        LineItem::Comma("、".to_string()),
        LineItem::Comment("猫である。".to_string()),
        LineItem::TextWithRuby(("名前".to_string(), "なまえ".to_string())),
        LineItem::Text("はまだ無い".to_string()),
        LineItem::EndOfSentence(Terminator::Normal("」".to_string())),
    ]);
    let result = convert(line);
    assert_eq!(result, " 「我が輩は、|名前《なまえ》はまだ無い」\n");
}

#[test]
fn line_item_converter_test_convert_text() {
    let item = LineItem::Text("text".to_string());
    let result = AozoraLineItemConverter::convert(item);
    assert_eq!(result, "text");
}

#[test]
fn line_item_converter_test_convert_comma() {
    let item = LineItem::Comma(",".to_string());
    let result = AozoraLineItemConverter::convert(item);
    assert_eq!(result, ",");
}

#[test]
fn line_item_converter_test_convert_comment() {
    let item = LineItem::Comment("comment".to_string());
    let result = AozoraLineItemConverter::convert(item);
    assert_eq!(result, "");
}

#[test]
fn line_item_converter_test_convert_rich_text() {
    let item = LineItem::TextWithRuby(("text".to_string(), "ruby".to_string()));
    let result = AozoraLineItemConverter::convert(item);
    assert_eq!(result, "|text《ruby》");
}

#[test]
fn line_item_converter_test_convert_end_of_sentence() {
    let item = LineItem::EndOfSentence(Terminator::Normal(".".to_string()));
    let result = AozoraLineItemConverter::convert(item);
    assert_eq!(result, ".");
}

#[test]
fn line_item_converter_test_convert_end_of_section() {
    let item = LineItem::EndOfSection("".to_string());
    let result = AozoraLineItemConverter::convert(item);
    assert_eq!(result, "\n");
}

#[test]
fn test_convert_text_with_sesame() {
    let item = LineItem::TextWithSesame(("text".to_string(), '・'));
    let result = AozoraLineItemConverter::convert(item);
    assert_eq!(result, "|text《・・・・》");
}

#[test]
fn exclamatory_sentence_end_gains_full_width_space() {
    let item = LineItem::EndOfSentence(Terminator::Exclamation("！？".to_string()));
    let result = AozoraLineItemConverter::convert(item);
    assert_eq!(result, "！？　");
}

#[test]
fn ruby_token_renders_vertical_print_form() {
    let item = LineItem::TextWithRuby(("猫".to_string(), "ねこ".to_string()));
    assert_eq!(AozoraLineItemConverter::convert(item), "|猫《ねこ》");
}

#[test]
fn quotation_line_renders_with_block_quote_marker() {
    let line = Line::Quotation(vec![LineItem::Text("引用".to_string())]);
    assert_eq!(convert(line), "> 引用\n");
}

#[test]
fn comment_line_renders_as_terminator_alone() {
    let line = Line::Comment("出力されない".to_string());
    assert_eq!(convert(line), "\n");
}

#[test]
fn section_title_renders_to_nothing() {
    let r = AozoraSectionConverter::convert(Section::Title("T".to_string()));
    assert_eq!(r, "");
}

#[test]
fn manuscript_places_dagger_separator_between_scenes() {
    let scene = |name: &str, text: &str| {
        Section::Scene(
            Document::new(name.to_string(), None, vec![]),
            vec![Line::Paragraph(vec![LineItem::Text(text.to_string())])],
        )
    };
    let out =
        AozoraManuscriptConverter::convert(vec![scene("one", "x"), scene("two", "y")]);
    assert_eq!(out, "\n†\n\n　x\n\n†\n\n　y\n");
    let out = AozoraManuscriptConverter::convert(vec![
        Section::Title("T".to_string()),
        scene("one", "x"),
    ]);
    assert_eq!(out, "\n\n　x\n");
}
