use krusty::block::{Block, Expression, Module, ModuleVars, NativeFuncDef};
use krusty::builtins::{
    lex_file, load_all, load_func, native_path, search_for_module, search_in, _assert, _exit,
    _if, _len, _print, _type,
};
use krusty::errors::{Error, ErrorKind, KrustyError};
use krusty::evaluator::{collapsed, compare, pick, Host, NameSpace, Session};
use krusty::host::Recorder;
use krusty::lexer::lex;
use krusty::number::Number;
use krusty::parser::parse;
use krusty::pkg::{to_native_dylib_name, Platform};
use krusty::render::{assemble, print_line, unescape, Piece};
use krusty::token::Token;

const DEPTH: usize = 64;

fn num(x: f64) -> Block {
    Block::Object(Token::Number(Number { bits: x.to_bits() }))
}

fn text(s: &str) -> Block {
    Block::Object(Token::Text(s.to_string()))
}

fn shown(b: &Block) -> String {
    Session::new(Recorder::new()).show(&b.to_pieces())
}

fn sym(s: &str) -> Block {
    Block::Object(Token::Symbol(s.to_string()))
}

fn run_in(
    ns: &mut NameSpace,
    host: &mut Session<Recorder>,
    source: &str,
) -> Result<Block, Error> {
    let mut tokens = lex(&source.to_string())?;
    let tree = parse(&mut tokens)?;
    ns.run(host, &tree, DEPTH)
}

fn eval(source: &str) -> Result<Block, Error> {
    let mut host = Session::new(Recorder::new());
    let mut ns = NameSpace::new(None, None);
    run_in(&mut ns, &mut host, source)
}

fn value(source: &str) -> Block {
    eval(source).unwrap()
}

fn kind(source: &str) -> ErrorKind {
    eval(source).unwrap_err().get_kind()
}

fn printed(source: &str) -> String {
    let mut host = Session::new(Recorder::new());
    let mut ns = NameSpace::new(None, None);
    run_in(&mut ns, &mut host, source).unwrap();
    host.host.printed
}

#[test]
fn running_nothing_gives_null() {
    assert!(value("") == Block::Null);
    assert!(value("   ") == Block::Null);
}

#[test]
fn the_four_operations() {
    assert!(value("1 + 2") == num(3.0));
    assert!(value("5 - 3") == num(2.0));
    assert!(value("2 * 3") == num(6.0));
    assert!(value("7 / 2") == num(3.5));
    assert!(value("0.5 + 0.25") == num(0.75));
}

#[test]
fn a_group_of_one_number_is_an_operand() {
    assert!(value("(1 + 2) * 3") == num(9.0));
    assert!(value("2 * (3)") == num(6.0));
}

#[test]
fn division_by_zero_is_infinite() {
    assert!(value("1 / 0") == num(f64::INFINITY));
}

#[test]
fn arithmetic_on_other_values_is_an_error() {
    assert_eq!(kind("1 + \"a\""), ErrorKind::Eval);
    assert_eq!(kind("true + 1"), ErrorKind::Eval);
    assert_eq!(kind("(1, 2) + 1"), ErrorKind::Eval);
}

#[test]
fn the_six_comparisons_on_numbers() {
    assert!(value("1 < 2") == Block::Bool(true));
    assert!(value("2 < 1") == Block::Bool(false));
    assert!(value("2 <= 2") == Block::Bool(true));
    assert!(value("3 > 2") == Block::Bool(true));
    assert!(value("2 >= 3") == Block::Bool(false));
    assert!(value("2 == 2") == Block::Bool(true));
    assert!(value("2 != 2") == Block::Bool(false));
    assert!(value("2 != 3") == Block::Bool(true));
}

#[test]
fn comparisons_on_texts_and_lists() {
    assert!(value("\"abc\" < \"abd\"") == Block::Bool(true));
    assert!(value("\"ab\" < \"abc\"") == Block::Bool(true));
    assert!(value("\"b\" > \"abc\"") == Block::Bool(true));
    assert!(value("\"x\" == \"x\"") == Block::Bool(true));
    assert!(value("a = (1, 2); b = (1, 3); a < b") == Block::Bool(true));
    assert!(value("a = (1, 2); b = (1, 2); a == b") == Block::Bool(true));
    assert!(value("a = (1, 2); b = (1, 2, 0); a < b") == Block::Bool(true));
}

#[test]
fn values_of_different_kinds_are_ordered_by_kind() {
    assert!(value("null < true") == Block::Bool(true));
    assert!(value("true < 1") == Block::Bool(true));
    assert!(value("1 < \"a\"") == Block::Bool(true));
    assert!(value("1 == \"1\"") == Block::Bool(false));
}

#[test]
fn a_nan_is_ordered_with_nothing() {
    assert!(value("n = 0 / 0; n == n") == Block::Bool(false));
    assert!(value("n = 0 / 0; n < 1") == Block::Bool(false));
    assert!(value("n = 0 / 0; n >= 1") == Block::Bool(false));
    assert!(value("n = 0 / 0; n != n") == Block::Bool(true));
}

#[test]
fn compare_refuses_an_unknown_operator() {
    let r = compare(&"<>".to_string(), &num(1.0), &num(2.0));
    assert_eq!(r.unwrap_err().get_kind(), ErrorKind::Eval);
    assert!(compare(&"<".to_string(), &num(1.0), &num(2.0)).unwrap() == Block::Bool(true));
}

#[test]
fn symbols_resolve_to_their_values() {
    assert!(value("a = 4; a") == sym("a"));
    assert!(value("a = 4; b = a; b + 1") == num(5.0));
    assert_eq!(kind("b = missing;"), ErrorKind::Eval);
}

#[test]
fn the_constants_are_bound() {
    assert!(value("a = true; type(a)") == text("<Bool>"));
    assert!(value("a = false; a == false") == Block::Bool(true));
    assert!(value("a = null; type(a)") == text("<Null>"));
}

#[test]
fn type_names_every_kind() {
    assert!(value("type(1)") == text("<Number>"));
    assert!(value("type(\"a\")") == text("<Text>"));
    assert!(value("xs = (1, 2); type(xs)") == text("<List>"));
    assert!(value("type(true)") == text("<Bool>"));
    assert!(value("type(null)") == text("<Null>"));
    assert!(value("f = (x) => x; type(f)") == text("<Func>"));
    assert!(value("type(print)") == text("<NativeFunc>"));
    assert!(value("m = { a = 1; }; type(m)") == text("<Module>"));
    assert_eq!(kind("type()"), ErrorKind::Eval);
    assert_eq!(kind("type(1, 2)"), ErrorKind::Eval);
}

#[test]
fn type_of_other_blocks() {
    assert!(_type(&vec![Block::FuncBody(vec![])]).unwrap() == text("<FuncBody>"));
    let e = Expression { op: Block::Null, elems: vec![] };
    assert!(_type(&vec![Block::Expr(Box::new(e))]).unwrap() == text("<Expr>"));
    assert!(_type(&vec![Block::Scope('(')]).unwrap() == text("<Type Not Found>"));
}

#[test]
fn every_type_tag_is_bracketed() {
    let samples = vec![
        num(1.0),
        text("a"),
        Block::List(vec![]),
        Block::Bool(true),
        Block::Null,
        Block::FuncBody(vec![]),
        Block::Scope('('),
        Block::Mod(Module::new(None)),
        Block::NativeFunc(NativeFuncDef::new("print", "")),
    ];
    for s in samples {
        match _type(&vec![s]).unwrap() {
            Block::Object(Token::Text(t)) => {
                assert!(t.starts_with('<') && t.ends_with('>'), "{}", t)
            },
            other => panic!("{:?}", other),
        }
    }
}

#[test]
fn if_takes_a_boolean_or_a_list_of_one() {
    assert!(_if(&vec![Block::Bool(true), num(1.0), num(2.0)]).unwrap() == num(1.0));
    assert!(_if(&vec![Block::Bool(false), num(1.0), num(2.0)]).unwrap() == num(2.0));
    let cond = Block::List(vec![Block::Bool(false)]);
    assert!(_if(&vec![cond, num(1.0), num(2.0)]).unwrap() == num(2.0));
    assert_eq!(_if(&vec![num(1.0), num(1.0), num(2.0)]).unwrap_err().get_kind(), ErrorKind::Eval);
    let empty = Block::List(vec![]);
    assert_eq!(_if(&vec![empty, num(1.0), num(2.0)]).unwrap_err().get_kind(), ErrorKind::Eval);
    let two = Block::List(vec![Block::Bool(true), Block::Bool(true)]);
    assert_eq!(_if(&vec![two, num(1.0), num(2.0)]).unwrap_err().get_kind(), ErrorKind::Eval);
    let other = Block::List(vec![num(1.0)]);
    assert_eq!(_if(&vec![other, num(1.0), num(2.0)]).unwrap_err().get_kind(), ErrorKind::Eval);
    assert_eq!(_if(&vec![Block::Bool(true)]).unwrap_err().get_kind(), ErrorKind::Eval);
}

#[test]
fn len_counts_elements_and_characters() {
    assert!(value("xs = (1, 2, 3); len(xs)") == num(3.0));
    assert!(value("len(\"abcd\")") == num(4.0));
    assert!(_len(&vec![text("é")]).unwrap() == num(1.0));
    assert!(_len(&vec![Block::List(vec![])]).unwrap() == num(0.0));
    assert_eq!(kind("len(1)"), ErrorKind::Eval);
    assert_eq!(kind("len()"), ErrorKind::Eval);
}

#[test]
fn assert_passes_true_only() {
    assert!(value("assert(1 < 2)") == Block::Bool(true));
    assert_eq!(kind("assert(2 < 1)"), ErrorKind::Eval);
    assert_eq!(kind("assert(1)"), ErrorKind::Eval);
    assert_eq!(_assert(&vec![]).unwrap_err().get_kind(), ErrorKind::Eval);
}

#[test]
fn exit_takes_no_arguments() {
    assert_eq!(_exit(&vec![]).unwrap_err().get_kind(), ErrorKind::SysExit);
    assert_eq!(_exit(&vec![num(1.0)]).unwrap_err().get_kind(), ErrorKind::Eval);
    assert_eq!(kind("a = 1; exit(); a = 2;"), ErrorKind::SysExit);
}

#[test]
fn foreach_over_a_list_and_over_a_text() {
    assert!(value("foreach((1, 2, 3), (x) => x + 1)") == Block::List(vec![num(2.0), num(3.0), num(4.0)]));
    assert!(value("foreach(\"ab\", type)") == Block::List(vec![text("<Text>"), text("<Text>")]));
    assert!(value("foreach(\"ab\", (c) => { ret c; })") == Block::List(vec![text("a"), text("b")]));
    assert_eq!(kind("foreach((1, 2), 3)"), ErrorKind::Eval);
    assert_eq!(kind("foreach(1, (x) => x)"), ErrorKind::Eval);
    assert_eq!(kind("foreach((1, 2))"), ErrorKind::Eval);
}

#[test]
fn foreach_preserves_length() {
    for source in ["()", "(1, 2)", "(1, 2, 3, 4, 5)"] {
        let program =
            format!("xs = {}; ys = foreach(xs, (x) => {{ ret x * x; }}); len(ys) == len(xs)", source);
        assert!(value(&program) == Block::Bool(true), "{}", source);
    }
}

#[test]
fn foreach_hands_errors_on() {
    assert_eq!(kind("foreach((1, 2), (x) => x + \"a\")"), ErrorKind::Eval);
}

#[test]
fn vars_lists_names_in_order() {
    assert!(value("a = 1; b = 2; vars()") == Block::List(vec![text("a"), text("b")]));
    assert!(value("m = { x = 1; y = 2; }; vars(m)") == Block::List(vec![text("x"), text("y")]));
    assert!(value("vars(1)") == Block::Null);
    assert_eq!(kind("vars(1, 2)"), ErrorKind::Eval);
}

#[test]
fn spill_binds_the_names_of_a_module() {
    assert!(value("m = { x = 1; y = 2; }; spill(m); x + y") == num(3.0));
    assert_eq!(kind("spill(1)"), ErrorKind::Eval);
    assert_eq!(kind("spill()"), ErrorKind::Eval);
}

#[test]
fn every_listed_name_can_be_looked_up_after_spill() {
    let mut host = Session::new(Recorder::new());
    let mut ns = NameSpace::new(None, None);
    run_in(&mut ns, &mut host, "a = 0; m = { a = 1; b = 2; c = 3; }; names = vars(m); spill(m);")
        .unwrap();
    match ns.get(&"names".to_string()).unwrap() {
        Block::List(names) => {
            assert_eq!(names.len(), 3);
            for n in names {
                match n {
                    Block::Object(Token::Text(name)) => assert!(ns.get(&name).is_ok()),
                    other => panic!("{:?}", other),
                }
            }
        },
        other => panic!("{:?}", other),
    }
    assert!(ns.get(&"a".to_string()).unwrap() == num(1.0));
}

#[test]
fn indexing_is_zero_based() {
    assert!(value("xs = (10, 20, 30); xs[0]") == num(10.0));
    assert!(value("xs = (10, 20, 30); xs[2]") == num(30.0));
    assert!(value("xs = (10, 20, 30); n = len(xs); xs[n - 1]") == num(30.0));
    assert!(value("xs = (10, 20, 30); xs[1.9]") == num(20.0));
    assert_eq!(kind("xs = (10, 20, 30); xs[3]"), ErrorKind::Eval);
    assert_eq!(kind("xs = (10, 20, 30); xs[\"a\"]"), ErrorKind::Eval);
    assert_eq!(kind("x = 1; x[0]"), ErrorKind::Eval);
}

#[test]
fn a_text_is_indexed_by_character() {
    assert!(value("s = \"héllo\"; s[1]") == text("é"));
    assert!(value("s = \"héllo\"; s[4]") == text("o"));
    assert_eq!(kind("s = \"abc\"; s[3]"), ErrorKind::Eval);
}

#[test]
fn pick_takes_an_index() {
    let list = Block::List(vec![num(1.0), num(2.0)]);
    assert!(pick(&list, 1).unwrap() == num(2.0));
    assert_eq!(pick(&list, 2).unwrap_err().get_kind(), ErrorKind::Eval);
    assert!(pick(&text("ab"), 0).unwrap() == text("a"));
    assert_eq!(pick(&num(1.0), 0).unwrap_err().get_kind(), ErrorKind::Eval);
}

#[test]
fn an_element_of_a_list_can_be_assigned() {
    assert!(value("xs = (1, 2, 3); xs[1] = 9; xs[1]") == num(9.0));
    assert!(value("xs = (1, 2, 3); xs[1] = 9; len(xs)") == num(3.0));
    assert_eq!(kind("xs = (1, 2, 3); xs[3] = 9;"), ErrorKind::Eval);
    assert_eq!(kind("x = 1; x[0] = 9;"), ErrorKind::Eval);
    assert_eq!(kind("ys[0] = 9;"), ErrorKind::Eval);
}

#[test]
fn a_member_of_a_module_can_be_assigned() {
    assert!(value("m = { a = 1; }; m.a = 5; m.a") == num(5.0));
    assert!(value("m = { a = 1; }; m.b = 7; m.b") == num(7.0));
    assert_eq!(kind("x = 1; x.a = 5;"), ErrorKind::Eval);
}

#[test]
fn assignment_to_other_targets_is_an_error() {
    assert_eq!(kind("1 = 2;"), ErrorKind::Eval);
    assert_eq!(kind("\"a\" = 2;"), ErrorKind::Eval);
}

#[test]
fn index_and_member_assignment_look_in_this_namespace_only() {
    assert_eq!(kind("xs = (1, 2); f = () => { xs[0] = 5; }; f();"), ErrorKind::Eval);
}

#[test]
fn an_assignment_in_a_function_is_local() {
    assert!(value("a = 1; f = () => { a = 2; ret a; }; b = f(); a + b") == num(3.0));
}

#[test]
fn a_function_sees_the_names_around_it() {
    assert!(value("a = 10; f = (x) => x + a; f(1)") == num(11.0));
}

#[test]
fn a_bare_body_gives_its_value() {
    assert!(value("f = (x) => x * 2; f(4)") == num(8.0));
    assert!(value("f = () => 5; f()") == num(5.0));
}

#[test]
fn a_callee_in_parentheses_is_the_callee() {
    assert!(value("f = (x) => x + 1; (f)(2)") == num(3.0));
    assert!(value("f = (x) => x + 1; f(2)") == num(3.0));
}

#[test]
fn a_call_on_the_value_of_a_call() {
    assert!(value("f = () => { ret (y) => y + 1; }; f()(2)") == num(3.0));
}

#[test]
fn a_function_keeps_nothing_of_the_call_that_made_it() {
    assert_eq!(kind("f = (x) => { ret (y) => x + y; }; f(1)(2)"), ErrorKind::Eval);
}

#[test]
fn a_bare_symbol_is_not_resolved() {
    assert!(value("f = (x) => x; f(1)") == sym("x"));
    assert!(value("a = false; (a == false)") != Block::Bool(true));
}

#[test]
fn a_list_literal_is_spread_over_the_parameters() {
    assert!(value("f = (a, b) => a + b; f((1, 2))") == num(3.0));
    assert_eq!(kind("len((1, 2, 3))"), ErrorKind::Eval);
}

#[test]
fn a_function_literal_can_be_called_at_once() {
    let mut host = Session::new(Recorder::new());
    let mut ns = NameSpace::new(None, None);
    let mut tokens = lex(&"f = (x) => x * 3;".to_string()).unwrap();
    let tree = parse(&mut tokens).unwrap();
    let func = tree[0].elems[1].clone();
    let r = ns.eval_func_obj(&mut host, &func, &num(2.0), None, DEPTH).unwrap();
    assert!(r == num(6.0));
}

#[test]
fn the_number_of_arguments_must_match() {
    assert_eq!(kind("f = (x) => x; f(1, 2)"), ErrorKind::Eval);
    assert_eq!(kind("f = (x, y) => x; f(1)"), ErrorKind::Eval);
    assert_eq!(kind("f = () => 1; f(1)"), ErrorKind::Eval);
}

#[test]
fn calling_what_is_no_function_is_an_error() {
    assert_eq!(kind("a = 1; a(2)"), ErrorKind::Eval);
    assert_eq!(kind("missing(2)"), ErrorKind::Eval);
}

#[test]
fn a_return_ends_the_function() {
    assert!(value("f = () => { ret 1; ret 2; }; f()") == num(1.0));
    assert!(value("f = () => { a = 1; }; f()") == Block::Null);
}

#[test]
fn a_return_at_top_level_is_an_error() {
    assert_eq!(kind("ret 1;"), ErrorKind::Eval);
    assert_eq!(kind("a = 1; ret a;"), ErrorKind::Eval);
}

#[test]
fn a_return_in_a_module_body_ends_it() {
    assert!(value("m = { a = 1; ret 0; b = 2; }; vars(m)") == Block::List(vec![text("a")]));
}

#[test]
fn endless_recursion_runs_out_of_depth() {
    assert_eq!(kind("f = (x) => f(x); f(1)"), ErrorKind::Eval);
}

#[test]
fn a_call_at_depth_zero_is_an_error() {
    let mut host = Session::new(Recorder::new());
    let mut ns = NameSpace::new(None, None);
    let mut tokens = lex(&"len(\"ab\")".to_string()).unwrap();
    let tree = parse(&mut tokens).unwrap();
    assert_eq!(ns.run(&mut host, &tree, 0).unwrap_err().get_kind(), ErrorKind::Eval);
    assert!(ns.run(&mut host, &tree, 1).unwrap() == num(2.0));
}

#[test]
fn a_list_resolves_element_by_element() {
    let mut host = Session::new(Recorder::new());
    let mut ns = NameSpace::new(None, None);
    run_in(&mut ns, &mut host, "x = 1; y = \"b\"; z = (3, 4);").unwrap();
    let list = Block::List(vec![sym("x"), sym("y"), sym("z")]);
    let whole = ns.resolve(&mut host, &list, DEPTH).unwrap();
    let x = ns.resolve(&mut host, &sym("x"), DEPTH).unwrap();
    let y = ns.resolve(&mut host, &sym("y"), DEPTH).unwrap();
    let z = ns.resolve(&mut host, &sym("z"), DEPTH).unwrap();
    assert!(whole == Block::List(vec![x, y, z]));
    let all = ns.resolve_vector(&mut host, &vec![sym("x"), sym("y")], DEPTH).unwrap();
    assert!(all == vec![num(1.0), text("b")]);
}

#[test]
fn a_function_body_resolves_to_null() {
    let mut host = Session::new(Recorder::new());
    let mut ns = NameSpace::new(None, None);
    assert!(ns.resolve(&mut host, &Block::FuncBody(vec![]), DEPTH).unwrap() == Block::Null);
    assert!(ns.resolve(&mut host, &num(1.0), DEPTH).unwrap() == num(1.0));
}

#[test]
fn a_module_body_run_twice_gives_equal_modules() {
    let mut host = Session::new(Recorder::new());
    let mut ns = NameSpace::new(None, None);
    run_in(&mut ns, &mut host, "k = 2;").unwrap();
    let mut tokens = lex(&"m = { a = k * 2; b = (x) => x + a; };".to_string()).unwrap();
    let tree = parse(&mut tokens).unwrap();
    let body = tree[0].elems[1].clone();
    let first = ns.resolve(&mut host, &body, DEPTH).unwrap();
    let second = ns.resolve(&mut host, &body, DEPTH).unwrap();
    assert!(first == second);
    assert!(matches!(first, Block::Mod(_)));
}

#[test]
fn statements_run_in_sequence() {
    let mut host = Session::new(Recorder::new());
    let mut whole = NameSpace::new(None, None);
    let together = run_in(&mut whole, &mut host, "a = 1; b = a + 1; b * 2").unwrap();
    let mut parts = NameSpace::new(None, None);
    run_in(&mut parts, &mut host, "a = 1;").unwrap();
    let apart = run_in(&mut parts, &mut host, "b = a + 1; b * 2").unwrap();
    assert!(together == apart);
    assert!(Block::Mod(whole.module) == Block::Mod(parts.module));
}

#[test]
fn a_successful_statement_stays_after_an_error() {
    let mut host = Session::new(Recorder::new());
    let mut ns = NameSpace::new(None, None);
    assert!(run_in(&mut ns, &mut host, "a = 1; b = missing;").is_err());
    assert!(ns.get(&"a".to_string()).unwrap() == num(1.0));
    assert!(run_in(&mut ns, &mut host, "a + 1").unwrap() == num(2.0));
}

#[test]
fn members_of_modules() {
    assert!(value("m = { a = 10; }; m.a") == num(10.0));
    assert_eq!(kind("m = { a = 10; }; m.b"), ErrorKind::Eval);
    assert_eq!(kind("x = 1; x.a"), ErrorKind::Eval);
    assert!(value("m = { a = 10; f = (x) => x + a; }; m.f(1)") == num(11.0));
}

#[test]
fn an_illegal_function_is_found_when_it_is_solved() {
    assert_eq!(kind("=> 1;"), ErrorKind::Parser);
}

#[test]
fn print_writes_its_arguments() {
    assert_eq!(printed("print();"), "\n");
    assert_eq!(printed("print(1, \"a\", true, null);"), "1 a true null\n");
    assert_eq!(printed("print(3.5);"), "3.5\n");
    assert_eq!(printed("print(\"a\\nb\\tc\");"), "a\nb\tc\n");
    assert_eq!(printed("xs = (1, \"a\", (2, 3)); print(xs);"), "(1,\"a\",(2,3))\n");
    assert_eq!(printed("print(1); print(2);"), "1\n2\n");
    assert_eq!(printed("m = { a = 1; }; print(m); print(print);"), "<module>\n<NativeFunc>\n");
}

#[test]
fn print_gives_null() {
    let mut session = Session::new(Recorder::new());
    let r = _print(&mut session, &vec![num(1.5), text("a")]).unwrap();
    assert!(r == Block::Null);
    assert_eq!(session.host.printed, "1.5 a\n");
}

#[test]
fn a_longer_program() {
    let source = "
        # a small program
        point = { x = 3; y = 4; norm2 = () => { ret (x * x) + (y * y); }; };
        scale = (p, k) => { ret { x = p.x * k; y = p.y * k; }; };
        q = scale(point, 2);
        print(point.norm2(), q.x, q.y);
        names = vars(q);
        print(len(names), names);
        total = 0;
        squares = foreach((1, 2, 3), (n) => { ret n * n; });
        print(squares, squares[1] == 4, type(squares));
    ";
    assert_eq!(printed(source), "25 6 8\n2 (\"x\",\"y\")\n(1,4,9) true <List>\n");
}

#[test]
fn print_line_and_unescape() {
    let none: Vec<String> = vec![];
    assert_eq!(assemble(&print_line(&vec![]), &none), "\n");
    let line = print_line(&vec![num(2.0), text("x\\ty")]);
    assert_eq!(line.len(), 4);
    match &line[0] {
        Piece::Number(n) => assert_eq!(n.bits, 2.0f64.to_bits()),
        other => panic!("{:?}", other),
    }
    assert_eq!(assemble(&line, &vec!["2".to_string()]), "2 x\ty\n");
    assert_eq!(assemble(&line, &vec!["two".to_string(), "more".to_string()]), "two x\ty\n");
    assert_eq!(assemble(&line, &none), " x\ty\n");
    assert_eq!(unescape("\\n\\t\\\\n\\"), "\n\t\\\n\\");
    assert_eq!(unescape("plain"), "plain");
}

#[test]
fn the_text_of_blocks() {
    assert_eq!(shown(&num(-2.5)), "-2.5");
    assert_eq!(shown(&text("a")), "\"a\"");
    assert_eq!(shown(&sym("a")), "Symbol(\"a\")");
    assert_eq!(shown(&Block::Operator(Token::Arith('+'))), "Arith('+')");
    assert_eq!(shown(&Block::Operator(Token::Assign)), "Assign");
    assert_eq!(shown(&Block::Bool(false)), "false");
    assert_eq!(shown(&Block::List(vec![])), "()");
    assert_eq!(shown(&Block::Scope('(')), "Scope('(')");
    assert_eq!(shown(&Block::FuncBody(vec![])), "<FuncBody>");
}

#[test]
fn import_runs_the_source_of_a_module() {
    let mut host = Session::new(Recorder::new());
    host.host.add_source("/lib.krt", "a = 1; twice = (x) => x * 2;");
    let mut ns = NameSpace::new(None, None);
    let r = run_in(&mut ns, &mut host, "m = import(\"lib\"); m.twice(m.a + 1)").unwrap();
    assert!(r == num(4.0));
    let names = run_in(&mut ns, &mut host, "vars(m)").unwrap();
    assert!(names == Block::List(vec![text("a"), text("twice")]));
    match ns.get(&"m".to_string()).unwrap() {
        Block::Mod(m) => assert_eq!(m.path, Some("/lib.krt".to_string())),
        other => panic!("{:?}", other),
    }
}

#[test]
fn import_of_a_missing_module_is_an_import_error() {
    assert_eq!(kind("import(\"nowhere\")"), ErrorKind::Import);
    assert_eq!(kind("import_native(\"nowhere\")"), ErrorKind::Import);
    assert!(value("import(1)") == Block::Null);
    assert!(value("import_native(1)") == Block::Null);
    assert_eq!(kind("import()"), ErrorKind::Eval);
}

#[test]
fn errors_in_an_imported_module_come_out() {
    let mut host = Session::new(Recorder::new());
    host.host.add_source("/bad_lex.krt", "a = $$;");
    host.host.add_source("/bad_parse.krt", "f = (x) =>");
    host.host.add_source("/bad_eval.krt", "a = missing;");
    let mut ns = NameSpace::new(None, None);
    let k = |r: Result<Block, Error>| r.unwrap_err().get_kind();
    assert_eq!(k(run_in(&mut ns, &mut host, "import(\"bad_lex\")")), ErrorKind::Lexer);
    assert_eq!(k(run_in(&mut ns, &mut host, "import(\"bad_parse\")")), ErrorKind::Parser);
    assert_eq!(k(run_in(&mut ns, &mut host, "import(\"bad_eval\")")), ErrorKind::Eval);
}

#[test]
fn an_imported_module_sees_the_importer() {
    let mut host = Session::new(Recorder::new());
    host.host.add_source("/child.krt", "b = a + 1;");
    let mut ns = NameSpace::new(None, None);
    assert!(run_in(&mut ns, &mut host, "a = 1; m = import(\"child\"); m.b").unwrap() == num(2.0));
}

#[test]
fn a_function_of_a_library_is_called_through_the_host() {
    let mut host = Session::new(Recorder::new());
    let mut ns = NameSpace::new(None, None);
    let f = Block::NativeFunc(NativeFuncDef::new("listdir", "/lib/libos.so"));
    let r = ns.eval_func_obj(&mut host, &f, &Block::List(vec![]), None, DEPTH);
    assert_eq!(r.unwrap_err().get_kind(), ErrorKind::Eval);
    let mut table = ModuleVars::new();
    load_func(&mut table, "listdir", "/lib/libos.so");
    assert!(table.get(&"listdir".to_string()).unwrap() == &f);
}

#[test]
fn the_builtins_are_loaded_at_the_root_only() {
    let root = NameSpace::new(None, None);
    for name in [
        "null", "true", "false", "print", "type", "if", "len", "foreach", "vars", "import",
        "import_native", "spill", "assert", "exit",
    ] {
        assert!(root.get(&name.to_string()).is_ok(), "{}", name);
    }
    let child = NameSpace::new(None, Some(&root));
    assert!(child.builtin_funcs.is_none());
    assert!(child.get(&"print".to_string()).is_ok());
    let mut table = ModuleVars::new();
    load_all(&mut table);
    assert_eq!(table.len(), 14);
    assert!(table.get(&"true".to_string()).unwrap() == &Block::Bool(true));
}

#[test]
fn the_nearest_binding_wins() {
    let mut root = NameSpace::new(Some("/root/main.krt".to_string()), None);
    root.set("a".to_string(), num(1.0));
    root.set("print".to_string(), num(0.0));
    let mut child = NameSpace::new(None, Some(&root));
    assert!(child.get(&"a".to_string()).unwrap() == num(1.0));
    assert!(child.get(&"print".to_string()).unwrap() == num(0.0));
    child.set("a".to_string(), num(2.0));
    assert!(child.get(&"a".to_string()).unwrap() == num(2.0));
    assert_eq!(child.get_path(), Some("/root/main.krt".to_string()));
    assert_eq!(child.get(&"zzz".to_string()).unwrap_err().get_kind(), ErrorKind::Eval);
    assert!(child.to_block().unwrap() == {
        let mut m = Module::new(None);
        m.vars.insert("a".to_string(), num(2.0));
        Block::Mod(m)
    });
}

#[test]
fn collapse_of_values() {
    assert!(collapsed(vec![]) == Block::Null);
    assert!(collapsed(vec![num(1.0)]) == num(1.0));
    assert!(collapsed(vec![num(1.0), num(2.0)]) == Block::List(vec![num(1.0), num(2.0)]));
    assert!(value("f = () => { ret (1, 2); }; f()") == Block::List(vec![num(1.0), num(2.0)]));
}

#[test]
fn errors_tell_their_name_and_message() {
    let e = Error::new(ErrorKind::Eval, "boom");
    assert_eq!(e.name(), "EvalError");
    assert_eq!(e.msg(), "boom");
    assert_eq!(e.get_kind(), ErrorKind::Eval);
    assert!(!e.is_sysexit());
    match e {
        Error::EvalError { lino, fname, .. } => {
            assert_eq!(lino, -1);
            assert_eq!(fname, "");
        },
        other => panic!("{:?}", other),
    }
    assert_eq!(Error::new(ErrorKind::Generic, "").name(), "GenericError");
    assert_eq!(Error::new(ErrorKind::Lexer, "").name(), "LexerError");
    assert_eq!(Error::new(ErrorKind::Parser, "").name(), "ParserError");
    assert_eq!(Error::new(ErrorKind::Import, "").name(), "ImportError");
    assert_eq!(Error::new(ErrorKind::SysExit, "").name(), "SysExit");
    assert!(Error::new(ErrorKind::SysExit, "Exit").is_sysexit());
}

#[test]
fn native_library_names() {
    assert_eq!(to_native_dylib_name("os", Platform::Other).unwrap(), "libos.so");
    assert_eq!(to_native_dylib_name("libos", Platform::Other).unwrap(), "libos.so");
    assert_eq!(to_native_dylib_name("libos.so", Platform::Other).unwrap(), "libos.so");
    assert_eq!(to_native_dylib_name("os", Platform::MacOs).unwrap(), "libos.dylib");
    assert_eq!(to_native_dylib_name("libos.dylib", Platform::MacOs).unwrap(), "libos.dylib");
    assert_eq!(to_native_dylib_name("os", Platform::Windows).unwrap(), "os.dll");
    assert_eq!(to_native_dylib_name("os.dll", Platform::Windows).unwrap(), "os.dll");
    assert_eq!(to_native_dylib_name("li", Platform::Other).unwrap(), "libli.so");
    assert_eq!(to_native_dylib_name("/a/b/os", Platform::Other).unwrap(), "/a/b/libos.so");
    assert_eq!(to_native_dylib_name("ext/os", Platform::Windows).unwrap(), "ext/os.dll");
}

#[test]
fn a_path_without_file_name_names_no_library() {
    for p in ["", "..", "a/..", "/"] {
        let e = to_native_dylib_name(p, Platform::Other).unwrap_err();
        assert_eq!(e.get_kind(), ErrorKind::Generic);
        assert_eq!(e.msg(), "filename not valid");
    }
    let ns = NameSpace::new(Some("/app/main.krt".to_string()), None);
    let e = native_path(&ns, &"..".to_string(), false, Platform::Other).unwrap_err();
    assert_eq!(e.get_kind(), ErrorKind::Generic);
    let mut session = Session::new(Recorder::new());
    let mut ns = NameSpace::new(Some("/app/main.krt".to_string()), None);
    let r = run_in(&mut ns, &mut session, "import_native(\"..\")");
    assert_eq!(r.unwrap_err().get_kind(), ErrorKind::Generic);
}

#[test]
fn a_file_is_read_and_scanned() {
    let mut host = Recorder::new();
    host.add_source("/a.krt", "a = 1;");
    host.add_source("/bad.krt", "a = $$;");
    let stream = lex_file(&mut host, &"/a.krt".to_string()).unwrap();
    assert_eq!(stream.len(), 4);
    assert_eq!(stream.current_idx(), 0);
    let missing = lex_file(&mut host, &"/none.krt".to_string()).unwrap_err();
    assert_eq!(missing.get_kind(), ErrorKind::Lexer);
    assert_eq!(missing.msg(), "Not found");
    let bad = lex_file(&mut host, &"/bad.krt".to_string());
    assert_eq!(bad.unwrap_err().get_kind(), ErrorKind::Lexer);
}

#[test]
fn a_library_is_loaded_into_a_module() {
    let mut host = Recorder::new();
    let mut with_path = Module::new(Some("/lib/libos.so".to_string()));
    assert_eq!(with_path.load_dylib(&mut host).unwrap_err().get_kind(), ErrorKind::Import);
    let mut without = Module::new(None);
    assert_eq!(without.load_dylib(&mut host).unwrap_err().get_kind(), ErrorKind::Import);
    assert_eq!(without.vars.len(), 0);
}

#[test]
fn the_recorder_keeps_what_is_printed() {
    let mut host = Recorder::new();
    host.print(&"a".to_string());
    host.print(&"b\n".to_string());
    assert_eq!(host.printed, "ab\n");
    host.add_source("m", "x = 1;");
    assert!(host.is_file(&"m".to_string()));
    assert!(!host.is_file(&"n".to_string()));
    assert!(!host.is_dir(&"m".to_string()));
    assert_eq!(host.read_file(&"m".to_string()).unwrap(), "x = 1;");
    assert_eq!(host.read_file(&"n".to_string()).unwrap_err().get_kind(), ErrorKind::Import);
    assert_eq!(host.canonical_path(&"m".to_string()).unwrap(), "m");
    assert!(host.canonical_path(&"n".to_string()).is_err());
    assert_eq!(host.current_dir(), "/");
    assert_eq!(host.home_dir(), None);
    assert_eq!(host.platform(), Platform::Other);
    assert!(host.load_library(&"m".to_string()).is_err());
    let ns = NameSpace::new(None, None);
    assert!(host.call_native(&"".to_string(), &"f".to_string(), &ns, &vec![]).is_err());
}

#[test]
fn a_module_is_looked_for_in_three_places() {
    let mut host = Recorder::new();
    host.add_source("/src/util.krt", "where = 2;");
    let root = NameSpace::new(Some("/src/main.krt".to_string()), None);
    let found = search_for_module(&root, &mut host, &"util".to_string()).unwrap();
    assert_eq!(found, "/src/util.krt");
    host.add_source("/util.krt", "where = 1;");
    let found = search_for_module(&root, &mut host, &"util".to_string()).unwrap();
    assert_eq!(found, "/util.krt");
    let missing = search_for_module(&root, &mut host, &"other".to_string());
    assert_eq!(missing.unwrap_err().get_kind(), ErrorKind::Import);
    let bases = vec!["a/b".to_string(), "c".to_string()];
    host.add_source("c.krt", "");
    assert_eq!(search_in(&mut host, &bases, "c").unwrap(), "c.krt");
    let e = search_in(&mut host, &vec![], "c").unwrap_err();
    assert_eq!(e.get_kind(), ErrorKind::Import);
    assert_eq!(e.msg(), "'c' Not found");
    let missing = search_for_module(&root, &mut host, &"other".to_string()).unwrap_err();
    assert_eq!(missing.msg(), "'other' Not found");
}

#[test]
fn a_module_imports_its_neighbours() {
    let mut host = Session::new(Recorder::new());
    host.host.add_source("/app/lib/a.krt", "b = import(\"../b\"); v = b.v + 1;");
    host.host.add_source("/app/b.krt", "v = 1;");
    let mut ns = NameSpace::new(Some("/app/main.krt".to_string()), None);
    let r = run_in(&mut ns, &mut host, "a = import(\"lib/a\"); a.v").unwrap();
    assert!(r == num(2.0));
}

#[test]
fn the_path_of_an_imported_module_is_absolute() {
    let mut host = Session::new(Recorder::new());
    host.host.add_source("/pkg/m.krt", "a = 1;");
    host.host.add_source("rel.krt", "a = 1;");
    let mut ns = NameSpace::new(Some("/pkg/main.krt".to_string()), None);
    match run_in(&mut ns, &mut host, "import(\"m\")").unwrap() {
        Block::Mod(m) => assert!(m.path.unwrap().starts_with('/')),
        other => panic!("{:?}", other),
    }
    let mut bare = NameSpace::new(None, None);
    let r = run_in(&mut bare, &mut host, "import(\"rel\")");
    assert_eq!(r.unwrap_err().get_kind(), ErrorKind::Import);
}

#[test]
fn the_path_of_a_native_library() {
    let ns = NameSpace::new(Some("/app/main.krt".to_string()), None);
    assert_eq!(native_path(&ns, &"os".to_string(), false, Platform::Other).unwrap(), "/app/libos.so");
    assert_eq!(native_path(&ns, &"ext/os".to_string(), false, Platform::Windows).unwrap(), "/app/ext/os.dll");
    assert_eq!(native_path(&ns, &"os".to_string(), true, Platform::MacOs).unwrap(), "/app/main.krt/libos.dylib");
    let bare = NameSpace::new(None, None);
    assert_eq!(native_path(&bare, &"os".to_string(), false, Platform::Other).unwrap(), "libos.so");
}
