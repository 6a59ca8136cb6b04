use krusty::block::{Block, Expression, ModuleVars};
use krusty::builtins::{absolute_path, bind_library, import_source, pick_module, read_source};
use krusty::errors::{Error, ErrorKind, KrustyError};
use krusty::evaluator::{index_of_number, Host, NameSpace, Session, DEFAULT_DEPTH};
use krusty::host::Recorder;
use krusty::lexer::lex;
use krusty::number::Number;
use krusty::parser::parse;
use krusty::pkg::Platform;
use krusty::token::Token;

const DEPTH: usize = 64;

/// A host that shows numbers as `f64` is shown, and is a recorder in all
/// else.
struct Plain {
    inner: Recorder,
}

impl Host for Plain {
    fn print(&mut self, text: &String) {
        self.inner.print(text)
    }

    fn current_dir(&mut self) -> String {
        self.inner.current_dir()
    }

    fn home_dir(&mut self) -> Option<String> {
        self.inner.home_dir()
    }

    fn is_dir(&mut self, path: &String) -> bool {
        self.inner.is_dir(path)
    }

    fn is_file(&mut self, path: &String) -> bool {
        self.inner.is_file(path)
    }

    fn canonical_path(&mut self, path: &String) -> Result<String, Error> {
        self.inner.canonical_path(path)
    }

    fn read_file(&mut self, path: &String) -> Result<String, Error> {
        self.inner.read_file(path)
    }

    fn platform(&mut self) -> Platform {
        self.inner.platform()
    }

    fn number_text(&mut self, bits: u64) -> String {
        f64::from_bits(bits).to_string()
    }

    fn load_library(&mut self, path: &String) -> Result<Vec<String>, Error> {
        self.inner.load_library(path)
    }

    fn call_native(
        &mut self,
        origin: &String,
        name: &String,
        ns: &NameSpace,
        args: &Vec<Block>,
    ) -> Result<Block, Error> {
        self.inner.call_native(origin, name, ns, args)
    }
}

fn num(x: f64) -> Block {
    Block::Object(Token::Number(Number { bits: x.to_bits() }))
}

fn sym(s: &str) -> Block {
    Block::Object(Token::Symbol(s.to_string()))
}

fn printed(source: &str) -> String {
    let mut session = Session::new(Plain { inner: Recorder::new() });
    let mut ns = NameSpace::new(None, None);
    let mut tokens = lex(&source.to_string()).unwrap();
    let tree = parse(&mut tokens).unwrap();
    ns.run(&mut session, &tree, DEPTH).unwrap();
    session.host.inner.printed
}

fn failure(source: &str) -> Error {
    let mut session = Session::new(Recorder::new());
    let mut ns = NameSpace::new(Some("/app/main.krt".to_string()), None);
    let mut tokens = lex(&source.to_string()).unwrap();
    let tree = parse(&mut tokens).unwrap();
    ns.run(&mut session, &tree, DEPTH).unwrap_err()
}

#[test]
fn numbers_are_printed_as_the_host_shows_them() {
    assert_eq!(printed("print(0.1);"), "0.1\n");
    assert_eq!(printed("print(10000);"), "10000\n");
    assert_eq!(printed("print(1/0);"), "inf\n");
    assert_eq!(printed("print(1, 2.5, \"x\");"), "1 2.5 x\n");
    assert_eq!(printed("l = (1, (2, 0.5)); print(l);"), "(1,(2,0.5))\n");
    assert_eq!(printed("print(1000000 * 1000000);"), "1000000000000\n");
}

#[test]
fn a_value_is_shown_with_the_numbers_of_the_host() {
    let mut session = Session::new(Plain { inner: Recorder::new() });
    let list = Block::List(vec![num(0.1), Block::Bool(true), num(-3.0)]);
    assert_eq!(session.show(&list.to_pieces()), "(0.1,true,-3)");
    assert_eq!(session.host.inner.printed, "");
}

#[test]
fn the_recorder_shows_numbers_in_its_own_way() {
    let mut host = Recorder::new();
    assert_eq!(host.number_text(0.1f64.to_bits()), "0.10000000000000001");
    assert_eq!(host.number_text(10000.0f64.to_bits()), "1.0E+4");
    assert_eq!(host.number_text(7.0f64.to_bits()), "7");
    assert_eq!(host.number_text(0.25f64.to_bits()), "0.25");
    assert_eq!(host.number_text((-2.5f64).to_bits()), "-2.5");
}

#[test]
fn the_first_import_file_that_is_there_is_picked() {
    let bases = vec!["/cwd/m".to_string(), "/src/m".to_string(), "/home/.krusty/pkg/m".to_string()];
    let no = vec![false, false, false];
    let got = pick_module(&bases, &no, &vec![false, true, true], "m").unwrap();
    assert_eq!(got, "/src/m.krt");
    let got = pick_module(&bases, &vec![true, false, false], &vec![true, true, false], "m").unwrap();
    assert_eq!(got, "/cwd/m/__pkg__.krt");
    let got = pick_module(&bases, &vec![false, false, true], &vec![false, false, true], "m").unwrap();
    assert_eq!(got, "/home/.krusty/pkg/m/__pkg__.krt");
    let e = pick_module(&bases, &no, &no, "m").unwrap_err();
    assert_eq!(e.get_kind(), ErrorKind::Import);
    assert_eq!(e.msg(), "'m' Not found");
    let e = pick_module(&vec![], &vec![], &vec![], "lib/x").unwrap_err();
    assert_eq!(e.msg(), "'lib/x' Not found");
}

#[test]
fn a_source_is_imported_as_a_module() {
    let mut session = Session::new(Plain { inner: Recorder::new() });
    let ns = NameSpace::new(Some("/app/main.krt".to_string()), None);
    let code = "a = 2; b = a * 3; print(b);".to_string();
    match import_source(&ns, &mut session, "/app/m.krt".to_string(), &code, DEPTH).unwrap() {
        Block::Mod(m) => {
            assert_eq!(m.path, Some("/app/m.krt".to_string()));
            assert!(*m.vars.get(&"a".to_string()).unwrap() == num(2.0));
            assert!(*m.vars.get(&"b".to_string()).unwrap() == num(6.0));
            assert_eq!(m.vars.len(), 2);
        }
        other => panic!("{:?}", other),
    }
    assert_eq!(session.host.inner.printed, "6\n");
    assert_eq!(ns.module.vars.len(), 0);
    let bad = "a = \u{1F980};".to_string();
    let e = import_source(&ns, &mut session, "/app/m.krt".to_string(), &bad, DEPTH).unwrap_err();
    assert_eq!(e.get_kind(), ErrorKind::Lexer);
    let broken = "f = (x) =>".to_string();
    let e = import_source(&ns, &mut session, "/app/m.krt".to_string(), &broken, DEPTH).unwrap_err();
    assert_eq!(e.get_kind(), ErrorKind::Parser);
    let failing = "a = nothing;".to_string();
    let e = import_source(&ns, &mut session, "/app/m.krt".to_string(), &failing, DEPTH).unwrap_err();
    assert_eq!(e.get_kind(), ErrorKind::Eval);
}

#[test]
fn the_functions_of_a_library_are_bound_by_name() {
    let mut vars = ModuleVars::new();
    vars.insert("open".to_string(), num(1.0));
    let names = vec!["open".to_string(), "close".to_string()];
    bind_library(&mut vars, &names, "/lib/libos.so");
    assert_eq!(vars.len(), 2);
    for name in ["open", "close"] {
        match vars.get(&name.to_string()).unwrap() {
            Block::NativeFunc(f) => {
                assert_eq!(f.name, name);
                assert_eq!(f.origin, "/lib/libos.so");
            }
            other => panic!("{:?}", other),
        }
    }
    bind_library(&mut vars, &vec![], "/lib/libos.so");
    assert_eq!(vars.len(), 2);
}

#[test]
fn an_index_is_a_number_that_is_not_below_zero() {
    assert_eq!(index_of_number(&Number { bits: 0.0f64.to_bits() }), Some(0));
    assert_eq!(index_of_number(&Number { bits: 3.0f64.to_bits() }), Some(3));
    assert_eq!(index_of_number(&Number { bits: (-1.0f64).to_bits() }), None);
    assert_eq!(index_of_number(&Number { bits: (-0.5f64).to_bits() }), None);
    assert_eq!(index_of_number(&Number { bits: f64::NAN.to_bits() }), None);
    assert_eq!(index_of_number(&Number { bits: f64::NEG_INFINITY.to_bits() }), None);
}

#[test]
fn an_index_below_zero_or_no_number_at_all_fails() {
    let ns = NameSpace::new(None, None);
    let list = Block::List(vec![num(10.0), num(20.0)]);
    assert!(ns.pick_index(&num(1.0), &list).unwrap() == num(20.0));
    assert_eq!(ns.pick_index(&num(-1.0), &list).unwrap_err().get_kind(), ErrorKind::Eval);
    assert_eq!(ns.pick_index(&num(f64::NAN), &list).unwrap_err().get_kind(), ErrorKind::Eval);
    assert_eq!(ns.pick_index(&num(2.0), &list).unwrap_err().get_kind(), ErrorKind::Eval);
    let mut ns = NameSpace::new(None, None);
    ns.set("l".to_string(), Block::List(vec![num(10.0), num(20.0)]));
    let at = |i: f64| {
        Block::Expr(Box::new(Expression {
            op: Block::Operator(Token::Index),
            elems: vec![sym("l"), num(i)],
        }))
    };
    assert_eq!(ns.store(&at(-1.0), num(0.0)).unwrap_err().get_kind(), ErrorKind::Eval);
    assert_eq!(ns.store(&at(f64::NAN), num(0.0)).unwrap_err().get_kind(), ErrorKind::Eval);
    assert!(ns.get(&"l".to_string()).unwrap() == Block::List(vec![num(10.0), num(20.0)]));
    assert!(ns.store(&at(0.0), num(5.0)).is_ok());
    assert!(ns.get(&"l".to_string()).unwrap() == Block::List(vec![num(5.0), num(20.0)]));
}

#[test]
fn a_file_that_cannot_be_read_is_a_lexer_error() {
    let mut host = Recorder::new();
    host.add_source("/a.krt", "x = 1;");
    assert_eq!(read_source(&mut host, &"/a.krt".to_string()).unwrap(), "x = 1;");
    let e = read_source(&mut host, &"/b.krt".to_string()).unwrap_err();
    assert_eq!(e.get_kind(), ErrorKind::Lexer);
}

#[test]
fn errors_name_what_was_not_found() {
    let e = failure("x + 1");
    assert_eq!(e.get_kind(), ErrorKind::Eval);
    assert_eq!(e.msg(), "Symbol 'x' not found");
    let e = failure("f = (a) => { ret a; }; f(1, 2)");
    assert_eq!(e.get_kind(), ErrorKind::Eval);
    assert_eq!(e.msg(), "function arguments for 'f' don't match");
    let e = failure("foreach((1, 2), (a, b) => a)");
    assert_eq!(e.msg(), "function arguments for 'anonymous' don't match");
    let e = failure("g(1)");
    assert_eq!(e.msg(), "function 'g' not defined");
    let e = failure("x = 1; x(2)");
    assert_eq!(e.msg(), "function 'x' definition error");
    let e = failure("l[0] = 1");
    assert_eq!(e.msg(), "Symbol 'l' not found in scope");
    let e = failure("import(\"nowhere\")");
    assert_eq!(e.get_kind(), ErrorKind::Import);
    assert_eq!(e.msg(), "'nowhere' Not found");
    let ns = NameSpace::new(None, None);
    assert_eq!(ns.get(&"y".to_string()).unwrap_err().msg(), "Symbol 'y' not found");
}

#[test]
fn a_call_below_depth_zero_is_an_error() {
    let mut session = Session::new(Recorder::new());
    let mut ns = NameSpace::new(None, None);
    let source = "f = (n) => { ret f(n + 1); }; f(0)".to_string();
    let mut tokens = lex(&source).unwrap();
    let tree = parse(&mut tokens).unwrap();
    let e = ns.run(&mut session, &tree, 40).unwrap_err();
    assert_eq!(e.get_kind(), ErrorKind::Eval);
    assert!(DEFAULT_DEPTH >= 100_000);
}

#[test]
fn a_list_resolves_from_left_to_right() {
    let mut session = Session::new(Recorder::new());
    let mut ns = NameSpace::new(None, None);
    ns.set("x".to_string(), num(1.0));
    let assign = Block::Expr(Box::new(Expression {
        op: Block::Operator(Token::Assign),
        elems: vec![sym("x"), num(2.0)],
    }));
    let list = Block::List(vec![sym("x"), assign, sym("x")]);
    let r = ns.resolve(&mut session, &list, DEPTH).unwrap();
    assert!(r == Block::List(vec![num(1.0), Block::Null, num(2.0)]));
    assert!(ns.get(&"x".to_string()).unwrap() == num(2.0));
}

#[test]
fn a_module_body_gives_the_same_module_each_time() {
    let mut session = Session::new(Plain { inner: Recorder::new() });
    let mut ns = NameSpace::new(None, None);
    let source = "m = { print(0.5); a = 1; }; n = { print(0.5); a = 1; };".to_string();
    let mut tokens = lex(&source).unwrap();
    let tree = parse(&mut tokens).unwrap();
    ns.run(&mut session, &tree, DEPTH).unwrap();
    let m = ns.get(&"m".to_string()).unwrap();
    let n = ns.get(&"n".to_string()).unwrap();
    assert!(m == n);
    assert!(matches!(m, Block::Mod(_)));
    assert_eq!(session.host.inner.printed, "0.5\n0.5\n");
    assert_eq!(ns.module.vars.len(), 2);
}

#[test]
fn a_parameter_that_is_no_symbol_is_a_parser_error() {
    for source in ["f = (1) => 2;", "f = (\"a\", b) => b;", "f = (l, l[0]) => { ret l; };"] {
        let mut tokens = lex(&source.to_string()).unwrap();
        let e = parse(&mut tokens).unwrap_err();
        assert_eq!(e.get_kind(), ErrorKind::Parser);
        assert_eq!(e.msg(), "Illegal function parameter");
    }
    for source in ["f = () => 2;", "f = (a) => a;", "f = (a, b) => { ret a + b; };"] {
        let mut tokens = lex(&source.to_string()).unwrap();
        let tree = parse(&mut tokens).unwrap();
        match &tree[0].elems[1] {
            Block::Func(f) => match &f.args {
                Block::List(l) => {
                    assert!(l.iter().all(|p| matches!(p, Block::Object(Token::Symbol(_)))))
                }
                other => panic!("{:?}", other),
            },
            other => panic!("{:?}", other),
        }
    }
    let unchecked = Expression {
        op: Block::Operator(Token::FuncDef),
        elems: vec![num(1.0), Block::FuncBody(vec![])],
    };
    assert_eq!(unchecked.to_block().unwrap_err().msg(), "Illegal function parameter");
}

#[test]
fn what_was_written_stays_written() {
    let mut session = Session::new(Recorder::new());
    let mut ns = NameSpace::new(None, None);
    let source = "print(1); print(\"a\\tb\"); missing + 1".to_string();
    let mut tokens = lex(&source).unwrap();
    let tree = parse(&mut tokens).unwrap();
    assert!(ns.run(&mut session, &tree, DEPTH).is_err());
    assert_eq!(session.host.printed, "1\na\tb\n");
    let more = "print(2);".to_string();
    let mut tokens = lex(&more).unwrap();
    let tree = parse(&mut tokens).unwrap();
    ns.run(&mut session, &tree, DEPTH).unwrap();
    assert_eq!(session.host.printed, "1\na\tb\n2\n");
    let hosted = "print(3); import(\"nowhere\"); print(4);".to_string();
    let mut tokens = lex(&hosted).unwrap();
    let tree = parse(&mut tokens).unwrap();
    let e = ns.run(&mut session, &tree, DEPTH).unwrap_err();
    assert_eq!(e.get_kind(), ErrorKind::Import);
    assert_eq!(session.host.printed, "1\na\tb\n2\n3\n");
}

#[test]
fn no_name_is_bound_twice() {
    let mut vars = ModuleVars::new();
    vars.insert("a".to_string(), num(1.0));
    vars.insert("b".to_string(), num(2.0));
    vars.insert("a".to_string(), num(3.0));
    let names: Vec<&str> = vars.bindings().iter().map(|b| b.name.as_str()).collect();
    assert_eq!(names, vec!["a", "b"]);
    assert!(*vars.get(&"a".to_string()).unwrap() == num(3.0));
    let mut other = ModuleVars::new();
    other.insert("b".to_string(), num(4.0));
    other.insert("c".to_string(), num(5.0));
    vars.extend(&other);
    let names: Vec<&str> = vars.bindings().iter().map(|b| b.name.as_str()).collect();
    assert_eq!(names, vec!["a", "b", "c"]);
    assert!(*vars.get(&"b".to_string()).unwrap() == num(4.0));
}

#[test]
fn foreach_gives_as_many_values_as_it_was_given() {
    let mut session = Session::new(Recorder::new());
    let mut ns = NameSpace::new(None, None);
    let source = "foreach(\"abcd\", (c) => c)".to_string();
    let mut tokens = lex(&source).unwrap();
    let tree = parse(&mut tokens).unwrap();
    match ns.run(&mut session, &tree, DEPTH).unwrap() {
        Block::List(l) => assert_eq!(l.len(), 4),
        other => panic!("{:?}", other),
    }
}

#[test]
fn evaluation_errors_carry_their_messages() {
    let message = |source: &str| {
        let e = failure(source);
        assert_eq!(e.get_kind(), ErrorKind::Eval);
        e.msg().clone()
    };
    assert_eq!(message("ret 1"), "cannot use return here!");
    assert_eq!(message("\"a\" + 1"), "Cannot perform Arith on this value");
    assert_eq!(message("l = (1, 2); l[5]"), "list index out of range");
    assert_eq!(message("t = \"ab\"; t[2]"), "text index out of range");
    assert_eq!(message("n = 1; n[0]"), "cannot index this value");
    assert_eq!(message("n = 1; n[0] = 2"), "List assignment failed List update error: Not a list");
    assert_eq!(message("l = (1, 2); l[2] = 0"), "List assignment failed");
    assert_eq!(message("m = { a = 1; }; m.b"), "member not found");
    assert_eq!(message("len(1)"), "len() not supported");
    assert_eq!(message("len()"), "expected 1 argument");
    assert_eq!(message("if(1, 2, 3)"), "unsupported condition statement");
    assert_eq!(message("assert(1 == 2)"), "Assertion error");
    assert_eq!(message("assert(1)"), "assert argument not supported");
    assert_eq!(message("foreach(1, (x) => x)"), "iteration not supported");
    assert_eq!(message("foreach((1, 2), 3)"), "second argument should be a function");
    assert_eq!(message("spill(1)"), "Unsupported argument to spill");
    assert_eq!(message("import(1, 2)"), "expected 1 argument");
    let e = failure("exit()");
    assert_eq!(e.get_kind(), ErrorKind::SysExit);
    assert_eq!(e.msg(), "Exit");
}

#[test]
fn a_path_from_the_host_must_be_absolute() {
    assert_eq!(absolute_path("/a/m.krt".to_string(), "module").unwrap(), "/a/m.krt");
    let e = absolute_path("a/m.krt".to_string(), "module").unwrap_err();
    assert_eq!(e.get_kind(), ErrorKind::Import);
    assert_eq!(e.msg(), "The path of the module is not absolute");
    let e = absolute_path("".to_string(), "library").unwrap_err();
    assert_eq!(e.msg(), "The path of the library is not absolute");
}

#[test]
fn a_text_is_counted_by_its_characters() {
    let value = |source: &str| {
        let mut session = Session::new(Recorder::new());
        let mut ns = NameSpace::new(None, None);
        let mut tokens = lex(&source.to_string()).unwrap();
        let tree = parse(&mut tokens).unwrap();
        ns.run(&mut session, &tree, DEPTH).unwrap()
    };
    assert!(value("len(\"\u{e9}\")") == num(1.0));
    assert!(value("len(\"a\u{e9}\u{1F980}\")") == num(3.0));
    assert!(value("len(\"\")") == num(0.0));
    assert!(value("len(foreach(\"a\u{e9}\u{1F980}\", (c) => c))") == num(3.0));
    let both = "t = \"a\u{e9}b\"; n = len(foreach(t, (c) => { ret c; })); n == len(t)";
    assert!(value(both) == Block::Bool(true));
    assert!(value("t = \"a\u{e9}b\"; t[1]") == Block::Object(Token::Text("\u{e9}".to_string())));
}

#[test]
fn arithmetic_groups_from_left_to_right() {
    let value = |source: &str| {
        let mut session = Session::new(Recorder::new());
        let mut ns = NameSpace::new(None, None);
        let mut tokens = lex(&source.to_string()).unwrap();
        let tree = parse(&mut tokens).unwrap();
        ns.run(&mut session, &tree, DEPTH).unwrap()
    };
    assert!(value("10 - 2 - 3") == num(5.0));
    assert!(value("10 - 2 - 3 - 4") == num(1.0));
    assert!(value("8 / 2 / 2") == num(2.0));
    assert!(value("2 * 3 + 1") == num(7.0));
    assert!(value("1 + 2 * 3") == num(7.0));
    assert!(value("1 + 2 * 3 * 4") == num(25.0));
    assert!(value("a = 10 - 2 - 3; a + 0") == num(5.0));
    assert!(value("10 - 2 - 3 < 6") == Block::Bool(true));
    let mut tokens = lex(&"10 - 2 - 3;".to_string()).unwrap();
    let tree = parse(&mut tokens).unwrap();
    assert_eq!(tree.len(), 1);
    assert!(tree[0].op == Block::Operator(Token::Arith('-')));
    assert_eq!(tree[0].elems.len(), 2);
    match &tree[0].elems[0] {
        Block::Expr(left) => {
            assert!(left.op == Block::Operator(Token::Arith('-')));
            assert!(left.elems == vec![num(10.0), num(2.0)]);
        }
        other => panic!("{:?}", other),
    }
    assert!(tree[0].elems[1] == num(3.0));
}

#[test]
fn scanning_and_parsing_twice_give_the_same() {
    for source in ["a = (1, 2); f = (x) => x + 1;", "f = (x) =>", "a ? b"] {
        let first = lex(&source.to_string());
        let second = lex(&source.to_string());
        match (first, second) {
            (Ok(mut a), Ok(mut b)) => match (parse(&mut a), parse(&mut b)) {
                (Ok(x), Ok(y)) => assert!(x == y),
                (Err(x), Err(y)) => {
                    assert_eq!(x.get_kind(), y.get_kind());
                    assert_eq!(x.msg(), y.msg());
                }
                _ => panic!("two results of one parse differ"),
            },
            (Err(x), Err(y)) => {
                assert_eq!(x.get_kind(), y.get_kind());
                assert_eq!(x.msg(), y.msg());
            }
            _ => panic!("two results of one scan differ"),
        }
    }
}

#[test]
fn an_error_names_no_file_and_no_line() {
    match Error::new(ErrorKind::Eval, "x") {
        Error::EvalError { msg, fname, lino } => {
            assert_eq!(msg, "x");
            assert_eq!(fname, "");
            assert_eq!(lino, -1);
        }
        other => panic!("{:?}", other),
    }
    match failure("missing + 1") {
        Error::EvalError { fname, lino, .. } => {
            assert_eq!(fname, "");
            assert_eq!(lino, -1);
        }
        other => panic!("{:?}", other),
    }
}

#[test]
fn importing_a_text_gives_a_module_or_an_error() {
    let mut session = Session::new(Recorder::new());
    session.host.add_source("/app/m.krt", "a = 1;");
    let mut ns = NameSpace::new(Some("/app/main.krt".to_string()), None);
    let args = vec![Block::Object(Token::Text("m".to_string()))];
    match krusty::builtins::_import(&mut ns, &mut session, &args, DEPTH).unwrap() {
        Block::Mod(m) => assert_eq!(m.path, Some("/app/m.krt".to_string())),
        other => panic!("{:?}", other),
    }
    let missing = vec![Block::Object(Token::Text("nowhere".to_string()))];
    assert!(krusty::builtins::_import(&mut ns, &mut session, &missing, DEPTH).is_err());
    assert!(krusty::builtins::_import_native(&mut ns, &mut session, &missing).is_err());
    let no_text = vec![num(1.0)];
    assert!(krusty::builtins::_import(&mut ns, &mut session, &no_text, DEPTH).unwrap() == Block::Null);
    assert!(krusty::builtins::_import_native(&mut ns, &mut session, &no_text).unwrap() == Block::Null);
}
