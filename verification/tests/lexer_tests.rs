use krusty::errors::ErrorKind;
use krusty::lexer::{lex, push_tweaked, trim_spaces, Lexicon, TokenStream};
use krusty::number::Number;
use krusty::token::Token;

fn tokens_of(source: &str) -> Vec<Token> {
    let mut stream = lex(&source.to_string()).unwrap();
    let mut out = Vec::new();
    while let Some(t) = stream.get_current() {
        out.push(t.clone());
        stream.inc();
    }
    out
}

fn num(x: f64) -> Token {
    Token::Number(Number { bits: x.to_bits() })
}

fn sym(s: &str) -> Token {
    Token::Symbol(s.to_string())
}

#[test]
fn blank_source_has_no_tokens() {
    assert_eq!(tokens_of(""), vec![]);
    assert_eq!(tokens_of("   \t  "), vec![]);
    assert_eq!(tokens_of(" "), vec![]);
}

#[test]
fn trailing_blanks_after_a_statement_are_dropped() {
    assert_eq!(tokens_of("a;  "), vec![sym("a"), Token::Separator]);
}

#[test]
fn every_kind_of_token_is_made() {
    assert_eq!(Token::create("abc_1").unwrap(), sym("abc_1"));
    assert_eq!(Token::create("*star").unwrap(), sym("*star"));
    assert_eq!(Token::create("ret").unwrap(), Token::FuncReturn);
    assert_eq!(Token::create("1.5").unwrap(), num(1.5));
    assert_eq!(Token::create("-2").unwrap(), num(-2.0));
    assert_eq!(Token::create(".5").unwrap(), num(0.5));
    assert_eq!(Token::create(".").unwrap(), Token::Accessor);
    assert_eq!(Token::create("\"hi there\"").unwrap(), Token::Text("hi there".to_string()));
    assert_eq!(Token::create("'x'").unwrap(), Token::Text("x".to_string()));
    assert_eq!(Token::create("+").unwrap(), Token::Arith('+'));
    assert_eq!(Token::create("-").unwrap(), Token::Arith('-'));
    assert_eq!(Token::create("*").unwrap(), Token::Arith('*'));
    assert_eq!(Token::create("/").unwrap(), Token::Arith('/'));
    assert_eq!(Token::create(";").unwrap(), Token::Separator);
    assert_eq!(Token::create("(").unwrap(), Token::ScopeStart('('));
    assert_eq!(Token::create("{").unwrap(), Token::ScopeStart('{'));
    assert_eq!(Token::create("[").unwrap(), Token::ScopeStart('['));
    assert_eq!(Token::create(")").unwrap(), Token::ScopeEnd(')'));
    assert_eq!(Token::create("}").unwrap(), Token::ScopeEnd('}'));
    assert_eq!(Token::create("]").unwrap(), Token::ScopeEnd(']'));
    assert_eq!(Token::create("=>").unwrap(), Token::FuncDef);
    assert_eq!(Token::create(",").unwrap(), Token::List);
    assert_eq!(Token::create("=").unwrap(), Token::Assign);
    assert_eq!(Token::create("# a comment").unwrap(), Token::_Comment);
    assert_eq!(Token::create("\n").unwrap(), Token::_NewLine);
    assert_eq!(Token::create("\r\n").unwrap(), Token::_NewLine);
    for op in ["==", "!=", "<", "<=", ">", ">="] {
        assert_eq!(Token::create(op).unwrap(), Token::Comparison(op.to_string()));
    }
}

#[test]
fn a_text_that_matches_nothing_is_a_lexer_error() {
    assert_eq!(Token::create("").unwrap_err().get_kind(), ErrorKind::Lexer);
    assert_eq!(Token::create("$").unwrap_err().get_kind(), ErrorKind::Lexer);
    assert_eq!(lex(&"a = $$;".to_string()).unwrap_err().get_kind(), ErrorKind::Lexer);
}

#[test]
fn a_number_with_two_dots_is_a_lexer_error() {
    assert_eq!(Token::create("1.2.3").unwrap_err().get_kind(), ErrorKind::Lexer);
    assert_eq!(lex(&"a = 1.2.3;".to_string()).unwrap_err().get_kind(), ErrorKind::Lexer);
}

#[test]
fn from_match_follows_the_pattern_index() {
    assert_eq!(Token::from_match(0, "ret").unwrap(), Token::FuncReturn);
    assert_eq!(Token::from_match(0, "x").unwrap(), sym("x"));
    assert_eq!(Token::from_match(1, ".").unwrap(), Token::Accessor);
    assert_eq!(Token::from_match(1, "42").unwrap(), num(42.0));
    assert_eq!(Token::from_match(1, "x").unwrap_err().get_kind(), ErrorKind::Lexer);
    assert_eq!(Token::from_match(2, "\"ab\"").unwrap(), Token::Text("ab".to_string()));
    assert_eq!(Token::from_match(2, "\"").unwrap_err().get_kind(), ErrorKind::Lexer);
    assert_eq!(Token::from_match(3, "+").unwrap(), Token::Arith('+'));
    assert_eq!(Token::from_match(3, "").unwrap_err().get_kind(), ErrorKind::Lexer);
    assert_eq!(Token::from_match(4, ";").unwrap(), Token::Separator);
    assert_eq!(Token::from_match(5, "(").unwrap(), Token::ScopeStart('('));
    assert_eq!(Token::from_match(6, ")").unwrap(), Token::ScopeEnd(')'));
    assert_eq!(Token::from_match(7, "=>").unwrap(), Token::FuncDef);
    assert_eq!(Token::from_match(8, ",").unwrap(), Token::List);
    assert_eq!(Token::from_match(9, "=").unwrap(), Token::Assign);
    assert_eq!(Token::from_match(10, "#x").unwrap(), Token::_Comment);
    assert_eq!(Token::from_match(11, "\n").unwrap(), Token::_NewLine);
    assert_eq!(Token::from_match(12, "<=").unwrap(), Token::Comparison("<=".to_string()));
    assert_eq!(Token::from_match(13, "x").unwrap_err().get_kind(), ErrorKind::Lexer);
}

#[test]
fn first_match_is_the_pattern_of_least_index() {
    let lexicon = Lexicon::new().unwrap();
    assert_eq!(lexicon.first_match("abc"), Some(0));
    assert_eq!(lexicon.first_match("12"), Some(1));
    assert_eq!(lexicon.first_match("+"), Some(3));
    assert_eq!(lexicon.first_match("=="), Some(12));
    assert_eq!(lexicon.first_match("a b"), None);
    assert!(lexicon.is_pending("\"open"));
    assert!(!lexicon.is_pending("\"closed\""));
    assert!(!lexicon.is_pending("plain"));
}

#[test]
fn a_call_gets_its_marker() {
    assert_eq!(
        tokens_of("f(x)"),
        vec![sym("f"), Token::FuncCall, Token::ScopeStart('('), sym("x"), Token::ScopeEnd(')')]
    );
}

#[test]
fn a_group_after_an_operator_gets_no_marker() {
    assert_eq!(
        tokens_of("1 + (2)"),
        vec![num(1.0), Token::Arith('+'), Token::ScopeStart('('), num(2.0), Token::ScopeEnd(')')]
    );
}

#[test]
fn a_call_after_a_scope_end_gets_its_marker() {
    assert_eq!(
        tokens_of("f(x)(y)"),
        vec![
            sym("f"),
            Token::FuncCall,
            Token::ScopeStart('('),
            sym("x"),
            Token::ScopeEnd(')'),
            Token::FuncCall,
            Token::ScopeStart('('),
            sym("y"),
            Token::ScopeEnd(')'),
        ]
    );
}

#[test]
fn a_bracket_gets_its_index_marker() {
    assert_eq!(
        tokens_of("xs[2]"),
        vec![sym("xs"), Token::Index, Token::ScopeStart('['), num(2.0), Token::ScopeEnd(']')]
    );
}

#[test]
fn push_tweaked_rewrites_ret() {
    let mut out = vec![];
    push_tweaked(sym("ret"), &mut out);
    push_tweaked(sym("x"), &mut out);
    push_tweaked(Token::ScopeStart('('), &mut out);
    push_tweaked(Token::ScopeStart('['), &mut out);
    assert_eq!(
        out,
        vec![
            Token::FuncReturn,
            sym("x"),
            Token::FuncCall,
            Token::ScopeStart('('),
            Token::Index,
            Token::ScopeStart('['),
        ]
    );
}

#[test]
fn push_tweaked_adds_no_marker_at_the_start() {
    let mut out = vec![];
    push_tweaked(Token::ScopeStart('('), &mut out);
    assert_eq!(out, vec![Token::ScopeStart('(')]);
}

#[test]
fn quoted_text_keeps_its_blanks_and_operators() {
    assert_eq!(
        tokens_of("s = \"a + b; c\";"),
        vec![sym("s"), Token::Assign, Token::Text("a + b; c".to_string()), Token::Separator]
    );
}

#[test]
fn an_unclosed_text_at_the_end_is_dropped() {
    assert_eq!(tokens_of("a; \"open"), vec![sym("a"), Token::Separator]);
}

#[test]
fn a_comment_runs_to_the_end_of_the_line() {
    assert_eq!(
        tokens_of("a; # note = 1\nb;"),
        vec![
            sym("a"),
            Token::Separator,
            Token::_Comment,
            Token::_NewLine,
            sym("b"),
            Token::Separator,
        ]
    );
}

#[test]
fn the_arrow_and_the_comparisons_are_told_apart() {
    assert_eq!(
        tokens_of("a => b == c = d <= e"),
        vec![
            sym("a"),
            Token::FuncDef,
            sym("b"),
            Token::Comparison("==".to_string()),
            sym("c"),
            Token::Assign,
            sym("d"),
            Token::Comparison("<=".to_string()),
            sym("e"),
        ]
    );
}

#[test]
fn trim_spaces_trims_both_ends() {
    let w: Vec<char> = " \t a b \t".chars().collect();
    assert_eq!(trim_spaces(&w), "a b");
    let blank: Vec<char> = "  ".chars().collect();
    assert_eq!(trim_spaces(&blank), "");
    let none: Vec<char> = "ab".chars().collect();
    assert_eq!(trim_spaces(&none), "ab");
}

#[test]
fn the_cursor_moves_and_peeks() {
    let mut s = TokenStream::from_tokens(vec![sym("a"), Token::Assign, num(1.0)]);
    assert_eq!(s.len(), 3);
    assert_eq!(s.current_idx(), 0);
    assert_eq!(s.get_current(), Some(&sym("a")));
    assert_eq!(s.get_next(), Some(&Token::Assign));
    assert_eq!(s.get_prev(), None);
    s.inc();
    assert_eq!(s.get_prev(), Some(&sym("a")));
    assert!(s.current_is(&Some(Token::Assign)));
    assert!(s.next_is(&Some(num(1.0))));
    assert!(s.prev_is(&Some(sym("a"))));
    s.inc_n(2);
    assert_eq!(s.current_idx(), 3);
    assert_eq!(s.get_current(), None);
    assert!(s.current_is(&None));
    assert!(s.next_is(&None));
    s.dec();
    assert_eq!(s.get_current(), Some(&num(1.0)));
    s.dec_n(5);
    assert_eq!(s.current_idx(), 0);
    assert_eq!(s.get_current_at(1), Some(&Token::Assign));
    assert_eq!(s.get_current_at(3), None);
}

#[test]
fn the_cursor_stops_at_the_largest_index() {
    let mut s = TokenStream::new();
    s.inc_n(usize::MAX);
    s.inc();
    assert_eq!(s.current_idx(), usize::MAX);
    assert_eq!(s.get_next(), None);
    assert_eq!(s.get_current(), None);
}

#[test]
fn membership_is_false_past_the_end() {
    let mut s = TokenStream::from_tokens(vec![Token::Separator]);
    let set = [Token::Separator, Token::List];
    assert!(s.current_is_in(&Some(&set)));
    assert!(!s.current_is_in(&None));
    assert!(!s.next_is_in(&Some(&set)));
    s.inc();
    assert!(!s.current_is_in(&Some(&set)));
    assert!(s.prev_is_in(&Some(&set)));
    let other = [Token::Assign];
    assert!(!s.prev_is_in(&Some(&other)));
}

#[test]
fn numbers_are_equal_as_values() {
    assert_eq!(num(0.0), num(-0.0));
    assert!(num(f64::NAN) != num(f64::NAN));
    assert!(num(1.0) != Token::Text("1".to_string()));
}

#[test]
fn digits_of_other_scripts_are_no_number() {
    assert_eq!(Token::create("\u{661}\u{662}").unwrap_err().get_kind(), ErrorKind::Lexer);
    assert_eq!(lex(&"a = \u{661};".to_string()).unwrap_err().get_kind(), ErrorKind::Lexer);
    assert_eq!(Token::from_match(1, "1e5").unwrap(), num(100000.0));
    assert_eq!(Token::from_match(1, "").unwrap_err().get_kind(), ErrorKind::Lexer);
    assert_eq!(Token::from_match(1, "-").unwrap_err().get_kind(), ErrorKind::Lexer);
    assert_eq!(Token::from_match(1, "..").unwrap_err().get_kind(), ErrorKind::Lexer);
}

#[test]
fn long_and_odd_numbers_are_read() {
    let long = "1".repeat(400);
    assert_eq!(Token::create(&long).unwrap(), num(f64::INFINITY));
    assert_eq!(Token::create("0.1").unwrap(), num(0.1));
    assert_eq!(Token::create("123456789.125").unwrap(), num(123456789.125));
    assert_eq!(Token::create("+7").unwrap(), num(7.0));
    assert_eq!(Token::create("5.").unwrap(), num(5.0));
    assert_eq!(Token::create("0000.5000").unwrap(), num(0.5));
}

#[test]
fn texts_in_other_scripts_are_kept() {
    assert_eq!(
        tokens_of("s = \"h\u{e9}llo \u{4e16}\u{754c}\";"),
        vec![
            sym("s"),
            Token::Assign,
            Token::Text("h\u{e9}llo \u{4e16}\u{754c}".to_string()),
            Token::Separator
        ]
    );
    assert_eq!(lex(&"\u{e9} = 1;".to_string()).unwrap_err().get_kind(), ErrorKind::Lexer);
}

#[test]
fn lexer_errors_carry_their_messages() {
    let e = krusty::lexer::lex(&"a ? b".to_string()).unwrap_err();
    assert_eq!(e.get_kind(), krusty::errors::ErrorKind::Lexer);
    assert_eq!(krusty::errors::KrustyError::msg(&e), "Unidentified symbol");
    let e = krusty::token::Token::from_match(1, "1.2.3").unwrap_err();
    assert_eq!(krusty::errors::KrustyError::msg(&e), "This is not a number");
    let e = krusty::token::Token::from_match(99, "x").unwrap_err();
    assert_eq!(krusty::errors::KrustyError::msg(&e), "Unidentified symbol");
}
