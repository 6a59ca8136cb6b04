use krusty::block::Expression;
use krusty::evaluator::{Host, Session};
use krusty::host::Recorder;
use krusty::lexer::lex;
use krusty::parser::parse;
use krusty::prompt::Pairs;
use krusty::render::Piece;
use krusty::text::string_of_range;

#[test]
fn closing_characters() {
    assert_eq!(Pairs::_match_pair('('), Some(')'));
    assert_eq!(Pairs::_match_pair('['), Some(']'));
    assert_eq!(Pairs::_match_pair('{'), Some('}'));
    assert_eq!(Pairs::_match_pair('"'), Some('"'));
    assert_eq!(Pairs::_match_pair('\''), Some('\''));
    assert_eq!(Pairs::_match_pair(')'), None);
    assert_eq!(Pairs::_match_pair('a'), None);
}

#[test]
fn a_statement_is_complete_at_its_semicolon() {
    let mut pairs = Pairs::new();
    assert!(pairs.is_complete("a = 1;\n"));
    assert!(pairs.want_pair.is_empty());
    assert!(!Pairs::new().is_complete("a = 1\n"));
    assert!(!Pairs::new().is_complete(""));
}

#[test]
fn a_semicolon_inside_brackets_or_quotes_does_not_complete() {
    let mut pairs = Pairs::new();
    assert!(!pairs.is_complete("f = (x) => { ret x;\n"));
    assert_eq!(pairs.want_pair, vec!['}']);
    assert!(pairs.is_complete("};\n"));
    assert!(pairs.want_pair.is_empty());
    let mut quoted = Pairs::new();
    assert!(!quoted.is_complete("s = \"a;\n"));
    assert_eq!(quoted.want_pair, vec!['"']);
    assert!(quoted.is_complete("b\";\n"));
}

#[test]
fn brackets_nest() {
    let mut pairs = Pairs::new();
    assert!(!pairs.is_complete("f(a[1], {"));
    assert_eq!(pairs.want_pair, vec![')', '}']);
    assert!(!pairs.is_complete("}"));
    assert_eq!(pairs.want_pair, vec![')']);
    assert!(pairs.is_complete(");"));
}

#[test]
fn a_session_hands_texts_to_its_host() {
    let mut session = Session::new(Recorder::new());
    session.print(&vec![Piece::Text("one ".to_string())]);
    session.print(&vec![Piece::Text("two".to_string()), Piece::Text("\n".to_string())]);
    assert_eq!(session.host.printed, "one two\n");
    session.host.print(&"!".to_string());
    assert_eq!(session.host.printed, "one two\n!");
}

#[test]
fn scanning_and_parsing_give_the_same_twice() {
    let source = "m = { a = 1; f = (x) => { ret x + a; }; }; print(m.f(2), \"x\"); # end\n";
    let parse_once = || -> Vec<Expression> {
        let mut tokens = lex(&source.to_string()).unwrap();
        parse(&mut tokens).unwrap()
    };
    assert!(parse_once() == parse_once());
    assert_eq!(parse_once().len(), 2);
}

#[test]
fn a_range_of_characters_stops_at_the_end() {
    let v = vec!['a', 'b', 'c'];
    assert_eq!(string_of_range(&v, 1, 9), "bc");
    assert_eq!(string_of_range(&v, 5, 9), "");
    assert_eq!(string_of_range(&v, 2, 1), "");
    assert_eq!(string_of_range(&v, 0, 3), "abc");
}
