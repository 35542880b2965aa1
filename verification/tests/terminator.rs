use rstrial::parser::terminator_parser::TerminatorParser;
use rstrial::tokens::line_item::Terminator;

#[test]
fn test_parse_terminator_exclamation() {
    let parser = TerminatorParser::new("！！。！？！！");
    let token = parser.parse();
    assert_eq!(token, Terminator::Exclamation("！！。！？！！".to_string()));
}

#[test]
fn test_parse_terminator_normal() {
    let parser = TerminatorParser::new("！！。！？！」");
    let token = parser.parse();
    assert_eq!(token, Terminator::Normal("！！。！？！」".to_string()));
}

#[test]
fn test_parse_terminator_empty_is_normal() {
    let parser = TerminatorParser::new("");
    let token = parser.parse();
    assert_eq!(token, Terminator::Normal("".to_string()));
}

#[test]
fn test_parse_terminator_ascii_suffix() {
    assert_eq!(
        TerminatorParser::new("。。?").parse(),
        Terminator::Exclamation("。。?".to_string())
    );
    assert_eq!(
        TerminatorParser::new("?!。").parse(),
        Terminator::Normal("?!。".to_string())
    );
}
