use krusty::lexer::lex;
use krusty::parser::parse;
use krusty::token::Token;

#[test]
fn it_works() {
    assert_eq!(2 + 2, 4);
}

#[test]
fn lib_it_works() {
    assert_eq!(2 + 2, 4);
}

#[test]
fn lexes_a_call() {
    let mut stream = lex(&"print(a);".to_string()).unwrap();
    assert_eq!(stream.len(), 6);
    assert!(stream.current_is(&Some(Token::Symbol("print".to_string()))));
    stream.inc();
    assert!(stream.current_is(&Some(Token::FuncCall)));
}

#[test]
fn parses_an_assignment() {
    let mut stream = lex(&"a = 1 + 2 * 3;".to_string()).unwrap();
    let exprs = parse(&mut stream).unwrap();
    assert_eq!(exprs.len(), 1);
    println!("{:?}", exprs);
}
