use rstrial::converter::aozora::AozoraManuscriptConverter;
use rstrial::converter::vfm::VfmManuscriptConverter;
use rstrial::converter::ManuscriptConverter;
use rstrial::parser::manuscript_parser::ManuscriptParser;

#[test]
fn comment_lines_never_appear_in_rendered_output() {
    let source = "# T\n```s\n本文です。\n// ひみつのメモ\n「会話だ」\n```\n";
    let (sections, diags) = ManuscriptParser::new(source).parse();
    assert!(diags.is_empty());
    let vfm = VfmManuscriptConverter::convert(sections);
    assert!(!vfm.contains("ひみつ"));
    assert!(vfm.contains("本文です。"));
    let (sections, _) = ManuscriptParser::new(source).parse();
    let aozora = AozoraManuscriptConverter::convert(sections);
    assert!(!aozora.contains("ひみつ"));
    assert!(aozora.contains("本文です。"));
}

#[test]
fn whole_pipeline_renders_both_dialects() {
    let source = "# 表題\n```場面\nこんにちは、{世界|せかい}。\n```\n";
    let (sections, diags) = ManuscriptParser::new(source).parse();
    assert!(diags.is_empty());
    let vfm = VfmManuscriptConverter::convert(sections);
    assert_eq!(vfm, "# 表題\n\n\n　こんにちは、{世界|せかい}。\n");
    let (sections, _) = ManuscriptParser::new(source).parse();
    let aozora = AozoraManuscriptConverter::convert(sections);
    assert_eq!(aozora, "\n\n　こんにちは、|世界《せかい》。\n");
}
