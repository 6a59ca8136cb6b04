use krusty::block::{Block, Expression, FuncDef};
use krusty::errors::{ErrorKind, KrustyError};
use krusty::lexer::{lex, TokenStream};
use krusty::number::Number;
use krusty::parser::parse;
use krusty::token::Token;

fn parsed(source: &str) -> Vec<Expression> {
    let mut stream = lex(&source.to_string()).unwrap();
    parse(&mut stream).unwrap()
}

fn parse_error(source: &str) -> ErrorKind {
    let mut stream = lex(&source.to_string()).unwrap();
    parse(&mut stream).unwrap_err().get_kind()
}

fn num(x: f64) -> Block {
    Block::Object(Token::Number(Number { bits: x.to_bits() }))
}

fn sym(s: &str) -> Block {
    Block::Object(Token::Symbol(s.to_string()))
}

fn expr(op: Token, elems: Vec<Block>) -> Block {
    Block::Expr(Box::new(Expression { op: Block::Operator(op), elems }))
}

fn statement(op: Token, elems: Vec<Block>) -> Expression {
    Expression { op: Block::Operator(op), elems }
}

#[test]
fn an_empty_stream_has_no_expressions() {
    let mut stream = TokenStream::new();
    assert_eq!(parse(&mut stream).unwrap().len(), 0);
    assert_eq!(parsed("").len(), 0);
    assert_eq!(parsed(";;\n;").len(), 0);
}

#[test]
fn an_assignment_is_headed_by_assign() {
    assert!(parsed("a = 1;") == vec![statement(Token::Assign, vec![sym("a"), num(1.0)])]);
}

#[test]
fn a_later_operator_binds_the_last_operand() {
    let inner = expr(Token::Arith('*'), vec![num(2.0), num(3.0)]);
    let sum = expr(Token::Arith('+'), vec![num(1.0), inner]);
    assert!(parsed("a = 1 + 2 * 3;") == vec![statement(Token::Assign, vec![sym("a"), sum])]);
}

#[test]
fn a_single_element_in_parentheses_is_no_list() {
    let group = expr(Token::Arith('+'), vec![num(1.0), num(2.0)]);
    assert!(parsed("a = (1 + 2);") == vec![statement(Token::Assign, vec![sym("a"), group])]);
    assert!(parsed("a = (7);") == vec![statement(Token::Assign, vec![sym("a"), num(7.0)])]);
}

#[test]
fn two_elements_in_parentheses_are_a_list() {
    let list = Block::List(vec![num(1.0), num(2.0)]);
    assert!(parsed("a = (1, 2);") == vec![statement(Token::Assign, vec![sym("a"), list])]);
}

#[test]
fn empty_parentheses_are_an_empty_list() {
    let call = statement(Token::FuncCall, vec![sym("f"), Block::List(vec![])]);
    assert!(parsed("f();") == vec![call]);
}

#[test]
fn chained_calls_nest() {
    let first = expr(Token::FuncCall, vec![sym("f"), sym("x")]);
    let second = statement(Token::FuncCall, vec![first, sym("y")]);
    assert!(parsed("f(x)(y);") == vec![second]);
}

#[test]
fn a_function_with_a_braced_body() {
    let body = Block::FuncBody(vec![statement(Token::FuncReturn, vec![sym("x")])]);
    let func = Block::Func(Box::new(FuncDef { args: Block::List(vec![sym("x")]), body }));
    assert!(parsed("f = (x) => { ret x; };") == vec![statement(Token::Assign, vec![sym("f"), func])]);
}

#[test]
fn a_function_with_a_bare_body() {
    let sum = statement(Token::Arith('+'), vec![sym("x"), num(1.0)]);
    let func = Block::Func(
        Box::new(FuncDef { args: Block::List(vec![sym("x")]), body: Block::FuncBody(vec![sum]) }),
    );
    assert!(parsed("f = (x) => x + 1;") == vec![statement(Token::Assign, vec![sym("f"), func])]);
}

#[test]
fn function_parameters_are_always_a_list() {
    for source in ["f = () => 1;", "f = (a) => 1;", "f = (a, b) => 1;"] {
        let exprs = parsed(source);
        match &exprs[0].elems[1] {
            Block::Func(f) => assert!(matches!(f.args, Block::List(_))),
            other => panic!("{:?}", other),
        }
    }
}

#[test]
fn an_index_takes_the_last_operand() {
    let index = expr(Token::Index, vec![sym("xs"), num(2.0)]);
    assert!(parsed("a = xs[2];") == vec![statement(Token::Assign, vec![sym("a"), index])]);
}

#[test]
fn a_member_access() {
    let access = statement(Token::Accessor, vec![sym("m"), sym("a")]);
    assert!(parsed("m.a;") == vec![access]);
}

#[test]
fn a_module_body() {
    let inner = statement(Token::Assign, vec![sym("a"), num(10.0)]);
    let module = Block::ModBody(vec![inner]);
    assert!(parsed("m = { a = 10; };") == vec![statement(Token::Assign, vec![sym("m"), module])]);
}

#[test]
fn a_comparison_takes_what_was_read_as_its_left_side() {
    let left = expr(Token::Arith('+'), vec![num(1.0), num(2.0)]);
    let cmp = statement(Token::Comparison("<".to_string()), vec![left, num(4.0)]);
    assert!(parsed("1 + 2 < 4;") == vec![cmp]);
}

#[test]
fn a_return_holds_one_operand() {
    assert!(parsed("ret;") == vec![]);
    assert!(parsed("ret 1;") == vec![statement(Token::FuncReturn, vec![num(1.0)])]);
}

#[test]
fn comments_are_ignored() {
    let a = statement(Token::Assign, vec![sym("a"), num(1.0)]);
    let b = statement(Token::Assign, vec![sym("b"), num(2.0)]);
    assert!(parsed("a = 1; # first\nb = 2; # second\n") == vec![a.clone(), b.clone()]);
    assert!(parsed("# only a comment\na = 1;") == vec![a.clone()]);
    assert!(parsed("a = 1; # no end of line") == vec![a]);
}

#[test]
fn new_lines_between_statements_are_passed_over() {
    let a = statement(Token::Assign, vec![sym("a"), num(1.0)]);
    assert!(parsed("\n\na = 1;\n\n") == vec![a]);
}

#[test]
fn a_function_without_body_is_a_parser_error() {
    assert_eq!(parse_error("f = (x) =>"), ErrorKind::Parser);
}

#[test]
fn a_bracket_outside_an_index_is_a_parser_error() {
    let mut stream = TokenStream::from_tokens(
        vec![Token::Symbol("a".to_string()), Token::ScopeStart('['), Token::ScopeEnd(']')],
    );
    assert_eq!(parse(&mut stream).unwrap_err().get_kind(), ErrorKind::Parser);
}

#[test]
fn an_index_without_container_is_a_parser_error() {
    assert_eq!(parse_error("+ [2];"), ErrorKind::Parser);
}

#[test]
fn an_unknown_scope_start_is_a_parser_error() {
    let mut stream = TokenStream::from_tokens(vec![Token::ScopeStart('<')]);
    assert_eq!(parse(&mut stream).unwrap_err().get_kind(), ErrorKind::Parser);
}

#[test]
fn parsing_goes_on_from_the_cursor() {
    let mut stream = lex(&"a; b;".to_string()).unwrap();
    stream.inc_n(2);
    let exprs = parse(&mut stream).unwrap();
    assert!(exprs == vec![Expression { op: Block::Null, elems: vec![sym("b")] }]);
}

#[test]
fn to_block_collapses() {
    let single = Expression { op: Block::Null, elems: vec![num(1.0)] };
    assert!(single.to_block().unwrap() == num(1.0));
    let none = Expression { op: Block::Null, elems: vec![] };
    assert!(none.to_block().unwrap() == Block::List(vec![]));
    let pair = Expression { op: Block::Null, elems: vec![num(1.0), num(2.0)] };
    assert!(pair.to_block().unwrap() == Block::List(vec![num(1.0), num(2.0)]));
    let list = Expression { op: Block::Operator(Token::List), elems: vec![num(1.0)] };
    assert!(list.to_block().unwrap() == Block::List(vec![num(1.0)]));
    let sum = Expression { op: Block::Operator(Token::Arith('+')), elems: vec![num(1.0)] };
    assert!(sum.clone().to_block().unwrap() == Block::Expr(Box::new(sum)));
}

#[test]
fn to_block_makes_functions() {
    let body = Block::FuncBody(vec![]);
    let f = Expression { op: Block::Operator(Token::FuncDef), elems: vec![sym("x"), body.clone()] };
    let expected = Block::Func(Box::new(FuncDef { args: Block::List(vec![sym("x")]), body }));
    assert!(f.to_block().unwrap() == expected);
    let short = Expression { op: Block::Operator(Token::FuncDef), elems: vec![sym("x")] };
    assert_eq!(short.to_block().unwrap_err().get_kind(), ErrorKind::Parser);
    let bad = Expression { op: Block::Operator(Token::FuncDef), elems: vec![sym("x"), num(1.0)] };
    assert_eq!(bad.to_block().unwrap_err().get_kind(), ErrorKind::Parser);
}

#[test]
fn categorize_sorts_the_tokens() {
    assert!(Block::categorize(&Token::Symbol("a".to_string())) == sym("a"));
    assert!(Block::categorize(&Token::Arith('+')) == Block::Operator(Token::Arith('+')));
    assert!(Block::categorize(&Token::ScopeStart('(')) == Block::Scope('('));
    assert!(Block::categorize(&Token::ScopeEnd(')')) == Block::Null);
    assert!(Block::categorize(&Token::Separator) == Block::Null);
}

#[test]
fn parser_errors_carry_their_messages() {
    let message = |source: &str| {
        let mut tokens = lex(&source.to_string()).unwrap();
        parse(&mut tokens).unwrap_err().msg().clone()
    };
    assert_eq!(message("f = (x) =>"), "Incomplete function definition");
    assert_eq!(message("g = (a, b) =>"), "Incomplete function definition");
    assert_eq!(message("f = (x) =>"), message("f = (x) =>"));
}
