use rstrial::diagnostics::LineDiagnostic;
use rstrial::parser::line_item_parser::LineItemParser;
use rstrial::parser::line_parser::LineParser;
use rstrial::tokens::line_item::{LineItem, Terminator};

fn tokens_of(line: &str) -> Vec<LineItem> {
    let parser = LineParser::new(line);
    let (items, diags) = parser.parse();
    assert!(diags.is_empty(), "unexpected diagnostics: {:?}", diags);
    items
}

#[test]
fn it_returns_text_token() {
    let expected = vec![
        LineItem::Text("我が輩は".to_string()),
        LineItem::Comma("、".to_string()),
        LineItem::TextWithRuby(("猫".to_string(), "ねこ".to_string())),
        LineItem::Text("である".to_string()),
        LineItem::EndOfSentence(Terminator::Normal("。".to_string())),
        LineItem::Text("名前は".to_string()),
        LineItem::Comma("、".to_string()),
        LineItem::Text("まだ無い".to_string()),
        LineItem::EndOfSentence(Terminator::Normal("。".to_string())),
    ];
    let actual = tokens_of("我が輩は、{猫|ねこ}である。名前は、まだ無い。");
    assert_eq!(actual, expected);
}

#[test]
fn it_returns_text_token_ruby_on_head() {
    let expected = vec![
        LineItem::TextWithRuby(("吾輩".to_string(), "わがはい".to_string())),
        LineItem::Text("は猫である".to_string()),
        LineItem::EndOfSentence(Terminator::Normal("。".to_string())),
        LineItem::Text("名前はまだ無い".to_string()),
        LineItem::EndOfSentence(Terminator::Normal("。".to_string())),
        LineItem::Text("どこで生れたかとんと".to_string()),
        LineItem::TextWithRuby(("見当".to_string(), "けんとう".to_string())),
        LineItem::Text("がつかぬ".to_string()),
        LineItem::EndOfSentence(Terminator::Normal("。".to_string())),
    ];
    let actual =
        tokens_of("　　　　{吾輩|わがはい}は猫である。名前はまだ無い。どこで生れたかとんと{見当|けんとう}がつかぬ。");
    assert_eq!(actual, expected);
}

#[test]
fn it_returns_text_token_multi_terminator() {
    let expected = vec![
        LineItem::TextWithRuby(("吾輩".to_string(), "わがはい".to_string())),
        LineItem::Text("は猫である".to_string()),
        LineItem::EndOfSentence(Terminator::Exclamation("。。？！".to_string())),
        LineItem::Text("名前はまだ無い".to_string()),
        LineItem::EndOfSentence(Terminator::Normal("。。".to_string())),
        LineItem::Text("どこで生れたかとんと".to_string()),
        LineItem::TextWithRuby(("見当".to_string(), "けんとう".to_string())),
        LineItem::Text("がつかぬ".to_string()),
        LineItem::EndOfSentence(Terminator::Normal("。".to_string())),
    ];
    let actual = tokens_of(
        "　　　　{吾輩|わがはい}は猫である。。？！名前はまだ無い。。どこで生れたかとんと{見当|けんとう}がつかぬ。",
    );
    assert_eq!(actual, expected);
}

#[test]
fn parse() {
    let cases = vec![
        (
            "吾輩は{猫|ねこ}である{#犬のほうが いいかも}???!?!?!?!！？名前は{まだ|.}無い。どこで生まれたのかとんと見当がつかぬ。",
            vec![
                LineItem::Text("吾輩は".to_string()),
                LineItem::TextWithRuby(("猫".to_string(), "ねこ".to_string())),
                LineItem::Text("である".to_string()),
                LineItem::Comment("犬のほうが いいかも".to_string()),
                LineItem::EndOfSentence(Terminator::Exclamation("???!?!?!?!！？".to_string())),
                LineItem::Text("名前は".to_string()),
                LineItem::TextWithSesame(("まだ".to_string(), '・')),
                LineItem::Text("無い".to_string()),
                LineItem::EndOfSentence(Terminator::Normal("。".to_string())),
                LineItem::Text("どこで生まれたのかとんと見当がつかぬ".to_string()),
                LineItem::EndOfSentence(Terminator::Normal("。".to_string())),
            ],
        ),
        (
            "{吾輩は猫である|I am a cat}。",
            vec![
                LineItem::TextWithRuby(("吾輩は猫である".to_string(), "I am a cat".to_string())),
                LineItem::EndOfSentence(Terminator::Normal("。".to_string())),
            ],
        ),
        (
            "「ああああ」",
            vec![
                LineItem::Text("「ああああ".to_string()),
                LineItem::EndOfSentence(Terminator::Normal("」".to_string())),
            ],
        ),
    ];
    for (input, expected) in cases {
        let actual = tokens_of(input);
        assert_eq!(actual, expected);
    }
}

#[test]
fn tokenizes_ruby_annotation_exactly() {
    let expected = vec![
        LineItem::Text("我が輩は".to_string()),
        LineItem::Comma("、".to_string()),
        LineItem::TextWithRuby(("猫".to_string(), "ねこ".to_string())),
        LineItem::Text("である".to_string()),
        LineItem::EndOfSentence(Terminator::Normal("。".to_string())),
    ];
    assert_eq!(tokens_of("我が輩は、{猫|ねこ}である。"), expected);
}

#[test]
fn coalesces_terminator_run_into_one_token() {
    let actual = tokens_of("どうした???!?!");
    let expected = vec![
        LineItem::Text("どうした".to_string()),
        LineItem::EndOfSentence(Terminator::Exclamation("???!?!".to_string())),
    ];
    assert_eq!(actual, expected);
    assert_eq!(actual.len(), 2);
}

#[test]
fn empty_line_yields_no_tokens() {
    assert_eq!(tokens_of(""), vec![]);
    assert_eq!(tokens_of("　　"), vec![]);
}

#[test]
fn delimiter_after_terminator_run() {
    let expected = vec![
        LineItem::Text("a".to_string()),
        LineItem::EndOfSentence(Terminator::Normal("。".to_string())),
        LineItem::Comma("、".to_string()),
        LineItem::Text("b".to_string()),
    ];
    assert_eq!(tokens_of("a。、b"), expected);
}

#[test]
fn malformed_annotation_yields_diagnostic() {
    let parser = LineParser::new("あ{そのまま}い");
    let (items, diags) = parser.parse();
    assert_eq!(
        items,
        vec![
            LineItem::Text("あ".to_string()),
            LineItem::Text("い".to_string()),
        ]
    );
    assert_eq!(
        diags,
        vec![LineDiagnostic { offset: 1, snippet: "そのまま".to_string() }]
    );
}

#[test]
fn unterminated_annotation_yields_diagnostic() {
    let parser = LineParser::new("あ{猫|ねこ");
    let (items, diags) = parser.parse();
    assert_eq!(items, vec![LineItem::Text("あ".to_string())]);
    assert_eq!(
        diags,
        vec![LineDiagnostic { offset: 1, snippet: "猫|ねこ".to_string() }]
    );
}

#[test]
fn empty_base_or_annotation_is_malformed() {
    let (_, diags) = LineParser::new("{|x}").parse();
    assert_eq!(diags.len(), 1);
    let (_, diags) = LineParser::new("{x|}").parse();
    assert_eq!(diags.len(), 1);
    let (_, diags) = LineParser::new("{#}").parse();
    assert_eq!(diags.len(), 1);
}

#[test]
fn line_item_parser_span_helpers() {
    assert_eq!(
        LineItemParser::to_comment_string("{#note}"),
        Some("note".to_string())
    );
    assert_eq!(LineItemParser::to_comment_string("{note}"), None);
    assert_eq!(
        LineItemParser::to_ruby("{猫|ねこ}"),
        Some(("猫".to_string(), "ねこ".to_string()))
    );
    assert_eq!(LineItemParser::to_ruby("{猫ねこ}"), None);
    assert_eq!(
        LineItemParser::to_sesame("{まだ|.}"),
        Some(("まだ".to_string(), '・'))
    );
    assert_eq!(
        LineItemParser::to_terminator("！？"),
        Terminator::Exclamation("！？".to_string())
    );
    assert_eq!(LineItemParser::to_string("abc"), "abc".to_string());
}
