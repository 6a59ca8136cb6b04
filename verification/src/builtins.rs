//! The functions built into the interpreter.

use crate::block::{
    bind, blocks_view, lemma_blocks_view, Block, BlockView, Module, ModuleVars, ModuleView,
    NativeFuncDef, Vars,
};
use crate::errors::{Error, ErrorKind, KrustyError};
use crate::evaluator::{
    agrees, at, changes, fails_with, grown, spelled, Host, NameSpace, Session,
};
use crate::lexer::{lex, lex_view, lexicon_compiles, no_lexicon, TokenStream};
use crate::number::{double_from_count, Number};
use crate::parser::{parse, parse_view};
use crate::path::{
    absolute, bases_of_module, import_file, is_absolute, module_bases, normalize_import_path,
    relative_path,
};
use crate::pkg::{has_file_name, native_library, to_native_dylib_name, Platform};
use crate::render::{print_line, print_pieces};
use crate::semantics::{
    assert_view, char_texts, eval_failure, exit_view, fail, foreach_view, if_view, len_view,
    map_view, native_view, run_view, spill_view, type_view, vars_view, Failure, Step, World,
};
use crate::text::{chars_of, framed, string_of_range};
use crate::token::{Token, TokenView};
use vstd::prelude::*;

verus! {

/// The native function of the interpreter that goes by `name`.
pub open spec fn native(name: Seq<char>) -> BlockView {
    BlockView::NativeFunc(name, Seq::empty())
}

/// `vars` with the builtins bound: the constants `null`, `true` and
/// `false`, and the native functions.
pub open spec fn with_builtins(vars: Vars) -> Vars {
    let v = bind(vars, "null"@, BlockView::Null);
    let v = bind(v, "true"@, BlockView::Bool(true));
    let v = bind(v, "false"@, BlockView::Bool(false));
    let v = bind(v, "print"@, native("print"@));
    let v = bind(v, "type"@, native("type"@));
    let v = bind(v, "if"@, native("if"@));
    let v = bind(v, "len"@, native("len"@));
    let v = bind(v, "foreach"@, native("foreach"@));
    let v = bind(v, "vars"@, native("vars"@));
    let v = bind(v, "import"@, native("import"@));
    let v = bind(v, "import_native"@, native("import_native"@));
    let v = bind(v, "spill"@, native("spill"@));
    let v = bind(v, "assert"@, native("assert"@));
    bind(v, "exit"@, native("exit"@))
}

/// Binds `name` to the native function of that name in the library
/// `origin`; the empty origin stands for the interpreter itself.
pub fn load_func(hm: &mut ModuleVars, name: &str, origin: &str)
    ensures
        final(hm)@ == bind(old(hm)@, name@, BlockView::NativeFunc(name@, origin@)),
{
    hm.insert(name.to_owned(), Block::NativeFunc(NativeFuncDef::new(name, origin)));
}

/// Binds the builtins: see [`with_builtins`].
pub fn load_all(env_native: &mut ModuleVars)
    ensures
        final(env_native)@ == with_builtins(old(env_native)@),
{
    env_native.insert("null".to_owned(), Block::Null);
    env_native.insert("true".to_owned(), Block::Bool(true));
    env_native.insert("false".to_owned(), Block::Bool(false));
    load_func(env_native, "print", "");
    load_func(env_native, "type", "");
    load_func(env_native, "if", "");
    load_func(env_native, "len", "");
    load_func(env_native, "foreach", "");
    load_func(env_native, "vars", "");
    load_func(env_native, "import", "");
    load_func(env_native, "import_native", "");
    load_func(env_native, "spill", "");
    load_func(env_native, "assert", "");
    load_func(env_native, "exit", "");
    proof {
        reveal_strlit("");
        assert(""@ =~= Seq::<char>::empty());
    }
}

/// A text value.
fn text(s: &str) -> (b: Block)
    ensures
        b@ == BlockView::Object(TokenView::Text(s@)),
{
    Block::Object(Token::Text(s.to_owned()))
}

/// `print`: writes the texts of the arguments, separated by spaces, and a
/// line feed ([`print_pieces`]), and gives null.
pub fn _print<H: Host>(session: &mut Session<H>, args: &Vec<Block>) -> (r: Result<Block, Error>)
    ensures
        r is Ok,
        r->Ok_0@ == BlockView::Null,
        final(session).written@ == old(session).written@ + print_pieces(blocks_view(args@)),
        grown(old(session).written@, final(session).written@),
{
    session.print(&print_line(args));
    Ok(Block::Null)
}

/// `type`: the tag of the one argument, as a text: see [`type_view`].
pub fn _type(args: &Vec<Block>) -> (r: Result<Block, Error>)
    ensures
        match type_view(blocks_view(args@)) {
            Ok(v) => r is Ok && r->Ok_0@ == v,
            Err(f) => fails_with(r, f),
        },
{
    if args.len() != 1 {
        return Err(Error::new(ErrorKind::Eval, "expected 1 argument"));
    }
    Ok(
        match &args[0] {
            Block::Object(Token::Text(_)) => text("<Text>"),
            Block::Object(Token::Number(_)) => text("<Number>"),
            Block::Func(_) => text("<Func>"),
            Block::NativeFunc(_) => text("<NativeFunc>"),
            Block::List(_) => text("<List>"),
            Block::Bool(_) => text("<Bool>"),
            Block::Expr(_) => text("<Expr>"),
            Block::FuncBody(_) => text("<FuncBody>"),
            Block::Mod(_) => text("<Module>"),
            Block::Null => text("<Null>"),
            _ => text("<Type Not Found>"),
        },
    )
}

/// `if`: the second of three arguments where the first is true, the third
/// where it is false: see [`if_view`].
pub fn _if(args: &Vec<Block>) -> (r: Result<Block, Error>)
    ensures
        match if_view(blocks_view(args@)) {
            Ok(v) => r is Ok && r->Ok_0@ == v,
            Err(f) => fails_with(r, f),
        },
{
    if args.len() != 3 {
        return Err(Error::new(ErrorKind::Eval, "expected 3 arguments"));
    }
    let condition = match &args[0] {
        Block::Bool(b) => Some(*b),
        Block::List(l) => {
            proof {
                lemma_blocks_view(l@);
            }
            if l.len() == 1 {
                l[0].get_bool()
            } else {
                None
            }
        },
        _ => None,
    };
    match condition {
        Some(true) => Ok(args[1].copy()),
        Some(false) => Ok(args[2].copy()),
        None => Err(Error::new(ErrorKind::Eval, "unsupported condition statement")),
    }
}

/// `len`: the number of elements of a list, or of characters of a text:
/// see [`len_view`].
pub fn _len(args: &Vec<Block>) -> (r: Result<Block, Error>)
    ensures
        match len_view(blocks_view(args@)) {
            Ok(v) => r is Ok && r->Ok_0@ == v,
            Err(f) => fails_with(r, f),
        },
{
    if args.len() != 1 {
        return Err(Error::new(ErrorKind::Eval, "expected 1 argument"));
    }
    let length = match &args[0] {
        Block::List(l) => {
            proof {
                lemma_blocks_view(l@);
            }
            l.len()
        },
        Block::Object(Token::Text(t)) => chars_of(t.as_str()).len(),
        _ => {
            return Err(Error::new(ErrorKind::Eval, "len() not supported"));
        },
    };
    Ok(Block::Object(Token::Number(Number { bits: double_from_count(length) })))
}

/// `assert`: the one argument where it is true: see [`assert_view`].
pub fn _assert(args: &Vec<Block>) -> (r: Result<Block, Error>)
    ensures
        match assert_view(blocks_view(args@)) {
            Ok(v) => r is Ok && r->Ok_0@ == v,
            Err(f) => fails_with(r, f),
        },
{
    if args.len() != 1 {
        return Err(Error::new(ErrorKind::Eval, "expected 1 argument"));
    }
    match &args[0] {
        Block::Bool(true) => Ok(args[0].copy()),
        Block::Bool(false) => Err(Error::new(ErrorKind::Eval, "Assertion error")),
        _ => Err(Error::new(ErrorKind::Eval, "assert argument not supported")),
    }
}

/// `exit`: the orderly-termination marker: see [`exit_view`].
pub fn _exit(args: &Vec<Block>) -> (r: Result<Block, Error>)
    ensures
        match exit_view(blocks_view(args@)) {
            Ok(v) => r is Ok && r->Ok_0@ == v,
            Err(f) => fails_with(r, f),
        },
{
    if args.len() != 0 {
        return Err(Error::new(ErrorKind::Eval, "expected 0 arguments"));
    }
    Err(Error::new(ErrorKind::SysExit, "Exit"))
}

/// `vars`: the names bound in this module or in the one given: see
/// [`vars_view`].
pub fn _vars(ns: &NameSpace, args: &Vec<Block>) -> (r: Result<Block, Error>)
    ensures
        match vars_view(ns@.module.vars, blocks_view(args@)) {
            Ok(v) => r is Ok && r->Ok_0@ == v,
            Err(f) => fails_with(r, f),
        },
{
    if args.len() > 1 {
        return Err(Error::new(ErrorKind::Eval, "expected 0..1 arguments"));
    }
    if args.len() == 0 {
        Ok(Block::List(ns.module.vars.names()))
    } else {
        match &args[0] {
            Block::Mod(m) => Ok(Block::List(m.vars.names())),
            _ => Ok(Block::Null),
        }
    }
}

/// `spill`: binds the names of the module given in this namespace: see
/// [`spill_view`].
pub fn _spill(ns: &mut NameSpace, args: &Vec<Block>) -> (r: Result<Block, Error>)
    ensures
        changes(spill_view(old(ns)@, blocks_view(args@)), old(ns)@, final(ns)@, r),
        r matches Ok(v) ==> v@ == BlockView::Null,
{
    if args.len() != 1 {
        return Err(Error::new(ErrorKind::Eval, "expected 1 argument"));
    }
    match &args[0] {
        Block::Mod(m) => {
            ns.module.vars.extend(&m.vars);
            Ok(Block::Null)
        },
        _ => Err(Error::new(ErrorKind::Eval, "Unsupported argument to spill")),
    }
}

/// The one-character texts of the characters of `t`.
fn texts_of_chars(t: &str) -> (v: Vec<Block>)
    ensures
        blocks_view(v@) == char_texts(t@),
{
    let chars = chars_of(t);
    let mut v: Vec<Block> = Vec::new();
    let mut i: usize = 0;
    while i < chars.len()
        invariant
            i <= chars@.len(),
            chars@ == t@,
            v@.len() == i,
            forall|j: int|
                0 <= j < i ==> (#[trigger] v@[j])@ == BlockView::Object(
                    TokenView::Text(seq![t@[j]]),
                ),
        decreases chars@.len() - i,
    {
        let s = string_of_range(&chars, i, i + 1);
        assert(s@ =~= seq![t@[i as int]]);
        v.push(Block::Object(Token::Text(s)));
        i += 1;
    }
    v
}

/// Calls `func` on each of `items`, and collects the values: see
/// [`map_view`].
#[verifier::loop_isolation(false)]
fn map<H: Host>(ns: &mut NameSpace, session: &mut Session<H>, func: &Block, items: &Vec<Block>, depth: usize) -> (r:
    Result<Block, Error>)
    ensures
        agrees(
            map_view(at(old(ns)@, old(session).written@), func@, blocks_view(items@), 0, Seq::empty(), depth as nat),
            at(old(ns)@, old(session).written@),
            at(final(ns)@, final(session).written@),
            r,
        ),
        r matches Ok(v) ==> v@ is List && v@->List_0.len() == items@.len(),
    decreases depth, *items, 2nat,
{
    let ghost views = blocks_view(items@);
    let ghost total = map_view(
        at(old(ns)@, old(session).written@),
        func@,
        views,
        0,
        Seq::empty(),
        depth as nat,
    );
    let mut out: Vec<Block> = Vec::new();
    let mut i: usize = 0;
    assert(blocks_view(out@) =~= Seq::empty());
    while i < items.len()
        invariant
            i <= items@.len(),
            out@.len() == i,
            ns@ == old(ns)@.with_vars(ns@.module.vars),
            grown(old(session).written@, session.written@),
            (total is Hosted && grown(total->Hosted_0, session.written@)) || map_view(
                at(ns@, session.written@),
                func@,
                views,
                i as int,
                blocks_view(out@),
                depth as nat,
            ) == total,
        decreases items@.len() - i,
    {
        let o = ns.eval_func_obj(session, func, &items[i], None, depth)?;
        let ghost before = blocks_view(out@);
        out.push(o);
        assert(blocks_view(out@) =~= before.push(o@));
        i += 1;
    }
    proof {
        lemma_blocks_view(out@);
    }
    Ok(Block::List(out))
}

/// `foreach`: calls the function given second on each element of the list,
/// or each character of the text, given first: see [`foreach_view`]. Where
/// it succeeds, whoever answered the calls, the value is a list as long as
/// the list or the text given first.
pub fn _foreach<H: Host>(ns: &mut NameSpace, session: &mut Session<H>, args: &Vec<Block>, depth: usize) -> (r:
    Result<Block, Error>)
    ensures
        agrees(
            foreach_view(at(old(ns)@, old(session).written@), blocks_view(args@), depth as nat),
            at(old(ns)@, old(session).written@),
            at(final(ns)@, final(session).written@),
            r,
        ),
        r matches Ok(v) ==> args@.len() == 2 && v@ is List && match args@[0]@ {
            BlockView::List(l) => v@->List_0.len() == l.len(),
            BlockView::Object(TokenView::Text(t)) => v@->List_0.len() == t.len(),
            _ => false,
        },
    decreases depth, *args, 0nat,
{
    if args.len() != 2 {
        return Err(Error::new(ErrorKind::Eval, "expected 2 arguments"));
    }
    if !(matches!(args[1], Block::Func(_)) || matches!(args[1], Block::NativeFunc(_))) {
        return Err(Error::new(ErrorKind::Eval, "second argument should be a function"));
    }
    if depth == 0 {
        return Err(Error::new(ErrorKind::Eval, "call depth exhausted"));
    }
    match &args[0] {
        Block::List(l) => map(ns, session, &args[1], l, depth - 1),
        Block::Object(Token::Text(t)) => {
            let chars = texts_of_chars(t.as_str());
            map(ns, session, &args[1], &chars, depth - 1)
        },
        _ => Err(Error::new(ErrorKind::Eval, "iteration not supported")),
    }
}

/// The import file of the first base from index `i` on whose import file
/// is there: `dirs` says of each base whether it is a directory, `files`
/// whether its import file is a file. `None` where no import file is there.
pub open spec fn pick_from(
    bases: Seq<Seq<char>>,
    dirs: Seq<bool>,
    files: Seq<bool>,
    i: int,
) -> Option<Seq<char>>
    decreases bases.len() - i,
{
    if i < 0 || i >= bases.len() || i >= dirs.len() || i >= files.len() {
        None
    } else if files[i] {
        Some(import_file(bases[i], dirs[i]))
    } else {
        pick_from(bases, dirs, files, i + 1)
    }
}

/// The text of the error for a module that was found nowhere.
pub open spec fn not_found(name: Seq<char>) -> Seq<char> {
    "'"@ + name + "' Not found"@
}

/// The file of the module `name`, given what the host said of its bases:
/// the import file of the first base whose import file is there
/// ([`pick_from`]). None being there is an import error that names the
/// module.
pub fn pick_module(bases: &Vec<String>, dirs: &Vec<bool>, files: &Vec<bool>, name: &str) -> (r:
    Result<String, Error>)
    ensures
        match pick_from(Seq::new(bases@.len(), |i: int| bases@[i]@), dirs@, files@, 0) {
            Some(p) => r is Ok && r->Ok_0@ == p,
            None => r is Err && r->Err_0.kind() == ErrorKind::Import && r->Err_0.message()
                == not_found(name@) && r->Err_0.is_plain(),
        },
{
    let ghost views = Seq::new(bases@.len(), |i: int| bases@[i]@);
    let mut i: usize = 0;
    while i < bases.len() && i < dirs.len() && i < files.len()
        invariant
            views == Seq::new(bases@.len(), |i: int| bases@[i]@),
            pick_from(views, dirs@, files@, i as int) == pick_from(views, dirs@, files@, 0),
        decreases bases@.len() - i,
    {
        if files[i] {
            return Ok(normalize_import_path(bases[i].as_str(), dirs[i]));
        }
        i += 1;
    }
    Err(Error::new(ErrorKind::Import, framed("'", name, "' Not found").as_str()))
}

/// The file of the module `name` among the import files of `bases`: the
/// host is asked of each base whether it is a directory and whether its
/// import file is there, and [`pick_module`] picks by the answers.
pub fn search_in<H: Host>(host: &mut H, bases: &Vec<String>, name: &str) -> (r: Result<
    String,
    Error,
>)
    ensures
        r matches Ok(p) ==> exists|i: int, d: bool|
            0 <= i < bases@.len() && p@ == #[trigger] import_file(bases@[i]@, d),
        r matches Err(e) ==> e.kind() == ErrorKind::Import && e.message() == not_found(name@)
            && e.is_plain(),
{
    let ghost views = Seq::new(bases@.len(), |i: int| bases@[i]@);
    let mut dirs: Vec<bool> = Vec::new();
    let mut files: Vec<bool> = Vec::new();
    let mut i: usize = 0;
    while i < bases.len()
        invariant
            i <= bases@.len(),
            dirs@.len() == i,
            files@.len() == i,
        decreases bases@.len() - i,
    {
        let d = host.is_dir(&bases[i]);
        let file = normalize_import_path(bases[i].as_str(), d);
        dirs.push(d);
        files.push(host.is_file(&file));
        i += 1;
    }
    let r = pick_module(bases, &dirs, &files, name);
    proof {
        if r is Ok {
            lemma_pick_is_a_base(views, dirs@, files@, 0);
        }
    }
    r
}

/// What is picked is the import file of one of the bases.
proof fn lemma_pick_is_a_base(bases: Seq<Seq<char>>, dirs: Seq<bool>, files: Seq<bool>, i: int)
    requires
        0 <= i,
    ensures
        pick_from(bases, dirs, files, i) matches Some(p) ==> exists|k: int, d: bool|
            0 <= k < bases.len() && p == #[trigger] import_file(bases[k], d),
    decreases bases.len() - i,
{
    if i < bases.len() && i < dirs.len() && i < files.len() {
        if files[i] {
            assert(import_file(bases[i], dirs[i]) == import_file(bases[i], dirs[i]));
        } else {
            lemma_pick_is_a_base(bases, dirs, files, i + 1);
        }
    }
}

/// Whether `p` is the import file of the base of index `i` among those of
/// the module `name`, imported from a module at `from`, where the working
/// directory is `cwd`, the home directory `home`, the importing module's
/// path a directory as `around` says, and the base a directory as `d` says.
pub open spec fn is_module_file(
    p: Seq<char>,
    name: Seq<char>,
    from: Option<Seq<char>>,
    cwd: Seq<char>,
    home: Option<Seq<char>>,
    around: bool,
    i: int,
    d: bool,
) -> bool {
    let bases = module_bases(name, cwd, relative_path(from, around, name), home);
    0 <= i < bases.len() && p == import_file(bases[i], d)
}

/// The file that the module `name` is kept in, looked for first under the
/// working directory, then as seen from the importing module, then among
/// the packages installed under the user's home.
pub fn search_for_module<H: Host>(ns: &NameSpace, host: &mut H, name: &String) -> (r: Result<
    String,
    Error,
>)
    ensures
        r matches Ok(p) ==> exists|
            cwd: Seq<char>,
            home: Option<Seq<char>>,
            around: bool,
            i: int,
            d: bool,
        | #[trigger] is_module_file(p@, name@, ns@.path(), cwd, home, around, i, d),
        r matches Err(e) ==> e.kind() == ErrorKind::Import && e.message() == not_found(name@)
            && e.is_plain(),
{
    let cwd = host.current_dir();
    let home = host.home_dir();
    let around = match ns.get_path() {
        Some(current) => host.is_dir(&current),
        None => false,
    };
    let seen = ns.get_relative_path(name, around);
    let bases = bases_of_module(name.as_str(), cwd.as_str(), seen, &home);
    let r = search_in(host, &bases, name.as_str());
    proof {
        if r is Ok {
            let p = r->Ok_0;
            let views = module_bases(
                name@,
                cwd@,
                relative_path(ns@.path(), around, name@),
                match home {
                    Some(h) => Some(h@),
                    None => None,
                },
            );
            let (i, d) = choose|i: int, d: bool|
                0 <= i < bases@.len() && p@ == #[trigger] import_file(bases@[i]@, d);
            assert(is_module_file(
                p@,
                name@,
                ns@.path(),
                cwd@,
                match home {
                    Some(h) => Some(h@),
                    None => None,
                },
                around,
                i,
                d,
            ));
        }
    }
    r
}

/// Reads the whole file at `filepath` through the host. What the host
/// cannot read is a lexer error with the host's message.
pub fn read_source<H: Host>(host: &mut H, filepath: &String) -> (r: Result<String, Error>)
    ensures
        r matches Err(e) ==> e.kind() == ErrorKind::Lexer && e.is_plain(),
{
    match host.read_file(filepath) {
        Ok(code) => Ok(code),
        Err(e) => Err(Error::new(ErrorKind::Lexer, e.msg().as_str())),
    }
}

/// Reads the whole file at `filepath` through the host and scans it. What
/// the host cannot read is a lexer error with the host's message, and so is
/// what cannot be scanned; a stream that comes out holds the tokens of some
/// text, with the cursor at its start.
pub fn lex_file<H: Host>(host: &mut H, filepath: &String) -> (r: Result<TokenStream, Error>)
    ensures
        r matches Ok(s) ==> s.pointer() == 0 && exists|code: Seq<char>| #[trigger]
            lex_view(code) == Ok::<Seq<TokenView>, Seq<char>>(s.tokens()),
        r matches Err(e) ==> e.kind() == ErrorKind::Lexer && e.is_plain(),
{
    match read_source(host, filepath) {
        Ok(code) => lex(&code),
        Err(e) => Err(e),
    }
}

/// The outcome of importing the source `code` of the module at `path`: the
/// source is scanned and parsed, and its statements are run, one level
/// below `depth`, in a namespace of its own inside this one; the module
/// that results, with `path` as its path, is the value. What was written
/// stays written; the bindings of this namespace stay as they are. A source
/// that cannot be scanned is a lexer error, one that cannot be parsed a
/// parser error, and an import at depth zero an evaluation error.
pub open spec fn import_view(w: World, path: Seq<char>, code: Seq<char>, depth: nat) -> Step {
    if !lexicon_compiles() {
        fail(Failure { kind: ErrorKind::Lexer, message: no_lexicon() }, w)
    } else {
        match lex_view(code) {
            Err(m) => fail(Failure { kind: ErrorKind::Lexer, message: m }, w),
            Ok(tokens) => match parse_view(tokens, 0) {
                Err(m) => fail(Failure { kind: ErrorKind::Parser, message: m }, w),
                Ok(body) => if depth == 0 {
                    fail(eval_failure("call depth exhausted"@), w)
                } else {
                    match run_view(
                        w.child(Seq::empty(), Some(path)),
                        body,
                        0,
                        BlockView::Null,
                        (depth - 1) as nat,
                    ) {
                        Step::Hosted(sofar) => Step::Hosted(sofar),
                        Step::Done(Ok(_), st) => Step::Done(
                            Ok(BlockView::Mod(ModuleView { vars: st.vars, path: Some(path) })),
                            w.after(st),
                        ),
                        Step::Done(Err(k), st) => Step::Done(Err(k), w.after(st)),
                    }
                },
            },
        }
    }
}

/// Imports the source `code` of the module at `path`: see [`import_view`].
pub fn import_source<H: Host>(
    ns: &NameSpace,
    session: &mut Session<H>,
    path: String,
    code: &String,
    depth: usize,
) -> (r: Result<Block, Error>)
    ensures
        agrees(
            import_view(at(ns@, old(session).written@), path@, code@, depth as nat),
            at(ns@, old(session).written@),
            at(ns@, final(session).written@),
            r,
        ),
        r matches Ok(v) ==> v@ is Mod && v@->Mod_0.path == Some(path@),
    decreases depth, *ns, 0nat,
{
    let mut tokens = lex(code)?;
    let tree = parse(&mut tokens)?;
    if depth == 0 {
        return Err(Error::new(ErrorKind::Eval, "call depth exhausted"));
    }
    let mut new_ns = NameSpace::new(Some(path), Some(ns));
    match new_ns.run(session, &tree, depth - 1) {
        Ok(_) => new_ns.to_block(),
        Err(e) => Err(e),
    }
}

/// The message for the path of a module or a library (`what` says which)
/// that the host gave and that is not absolute.
pub open spec fn not_absolute(what: Seq<char>) -> Seq<char> {
    "The path of the "@ + what + " is not absolute"@
}

/// The path that the host gave for a module or a library (`what` says
/// which), if it is absolute; any other path is an import error.
pub fn absolute_path(path: String, what: &str) -> (r: Result<String, Error>)
    ensures
        match r {
            Ok(p) => is_absolute(path@) && p == path,
            Err(e) => !is_absolute(path@) && e.kind() == ErrorKind::Import && e.message()
                == not_absolute(what@) && e.is_plain(),
        },
{
    if absolute(path.as_str()) {
        Ok(path)
    } else {
        Err(Error::new(ErrorKind::Import, framed("The path of the ", what, " is not absolute").as_str()))
    }
}

/// `import`: the file of the module named by the one argument is looked for
/// ([`search_for_module`]) and read, and its source is imported, one level
/// below `depth` ([`import_source`]), under the absolute path of the file.
/// An import at depth zero is an evaluation error, and a path from the host
/// that is not absolute is an import error. Whatever the host answers, the
/// import of a text gives a module with an absolute path or an error. An
/// argument that is no text gives null.
pub fn _import<H: Host>(ns: &mut NameSpace, session: &mut Session<H>, args: &Vec<Block>, depth: usize) -> (r:
    Result<Block, Error>)
    ensures
        final(ns)@ == old(ns)@,
        grown(old(session).written@, final(session).written@),
        blocks_view(args@).len() != 1 ==> fails_with(r, eval_failure("expected 1 argument"@))
            && final(session).written@ == old(session).written@,
        blocks_view(args@).len() == 1 && !(args@[0]@ is Object && args@[0]@->Object_0 is Text)
            ==> r is Ok && r->Ok_0@ == BlockView::Null && final(session).written@ == old(
            session,
        ).written@,
        blocks_view(args@).len() == 1 && args@[0]@ is Object && args@[0]@->Object_0 is Text
            && depth == 0 ==> fails_with(r, eval_failure("call depth exhausted"@))
            && final(session).written@ == old(session).written@,
        blocks_view(args@).len() == 1 && args@[0]@ is Object && args@[0]@->Object_0 is Text ==> (r
            matches Ok(v) ==> v@ is Mod && v@->Mod_0.path is Some && is_absolute(
            v@->Mod_0.path->Some_0,
        )),
    decreases depth, *args, 0nat,
{
    if args.len() != 1 {
        return Err(Error::new(ErrorKind::Eval, "expected 1 argument"));
    }
    match &args[0] {
        Block::Object(Token::Text(p)) => {
            if depth == 0 {
                return Err(Error::new(ErrorKind::Eval, "call depth exhausted"));
            }
            let found = search_for_module(ns, &mut session.host, p)?;
            let path = absolute_path(session.host.canonical_path(&found)?, "module")?;
            let code = read_source(&mut session.host, &path)?;
            import_source(&*ns, session, path, &code, depth - 1)
        },
        _ => Ok(Block::Null),
    }
}

/// The path of the native library that `name` stands for in a module of
/// this namespace: `name` as seen from the module, with its file name
/// turned into that of a library on `platform`. A name without file name is
/// a generic error.
pub fn native_path(ns: &NameSpace, name: &String, current_is_dir: bool, platform: Platform) -> (r:
    Result<String, Error>)
    ensures
        match r {
            Ok(q) => has_file_name(relative_path(ns@.path(), current_is_dir, name@)) && q@
                == native_library(relative_path(ns@.path(), current_is_dir, name@), platform),
            Err(e) => !has_file_name(relative_path(ns@.path(), current_is_dir, name@))
                && e.kind() == ErrorKind::Generic && e.message() == "filename not valid"@
                && e.is_plain(),
        },
{
    let seen = ns.get_relative_path(name, current_is_dir);
    to_native_dylib_name(seen.as_str(), platform)
}

/// `import_native`: the host loads the library named by the one argument
/// ([`native_path`]); the value is a module, with the absolute path of the
/// library, that binds each of the library's functions. A path from the
/// host that is not absolute is an import error. Whatever the host answers,
/// the import of a text gives a module with an absolute path or an error.
/// An argument that is no text gives null.
pub fn _import_native<H: Host>(ns: &mut NameSpace, session: &mut Session<H>, args: &Vec<Block>) -> (r: Result<
    Block,
    Error,
>)
    ensures
        final(ns)@ == old(ns)@,
        final(session).written@ == old(session).written@,
        blocks_view(args@).len() != 1 ==> fails_with(r, eval_failure("expected 1 argument"@)),
        blocks_view(args@).len() == 1 && !(args@[0]@ is Object && args@[0]@->Object_0 is Text)
            ==> r is Ok && r->Ok_0@ == BlockView::Null,
        blocks_view(args@).len() == 1 && args@[0]@ is Object && args@[0]@->Object_0 is Text ==> (r
            matches Ok(v) ==> v@ is Mod && v@->Mod_0.path is Some && is_absolute(
            v@->Mod_0.path->Some_0,
        )),
{
    if args.len() != 1 {
        return Err(Error::new(ErrorKind::Eval, "expected 1 argument"));
    }
    match &args[0] {
        Block::Object(Token::Text(p)) => {
            let around = match ns.get_path() {
                Some(current) => session.host.is_dir(&current),
                None => false,
            };
            let platform = session.host.platform();
            let library = native_path(ns, p, around, platform)?;
            let path = absolute_path(session.host.canonical_path(&library)?, "library")?;
            let mut module = Module::new(Some(path));
            module.load_dylib(&mut session.host)?;
            Ok(Block::Mod(module))
        },
        _ => Ok(Block::Null),
    }
}

/// `vars` with each of `names` from index `i` on bound, in order, to the
/// native function of that name in the library `origin`.
pub open spec fn bind_names(vars: Vars, names: Seq<Seq<char>>, origin: Seq<char>, i: int) -> Vars
    decreases names.len() - i,
{
    if i < 0 || i >= names.len() {
        vars
    } else {
        bind_names(
            bind(vars, names[i], BlockView::NativeFunc(names[i], origin)),
            names,
            origin,
            i + 1,
        )
    }
}

/// Binds each of `names`, in order, to the native function of that name in
/// the library `origin`: see [`bind_names`].
pub fn bind_library(vars: &mut ModuleVars, names: &Vec<String>, origin: &str)
    ensures
        final(vars)@ == bind_names(
            old(vars)@,
            Seq::new(names@.len(), |i: int| names@[i]@),
            origin@,
            0,
        ),
{
    let ghost views = Seq::new(names@.len(), |i: int| names@[i]@);
    let mut i: usize = 0;
    while i < names.len()
        invariant
            i <= names@.len(),
            views == Seq::new(names@.len(), |i: int| names@[i]@),
            bind_names(vars@, views, origin@, i as int) == bind_names(
                old(vars)@,
                views,
                origin@,
                0,
            ),
        decreases names@.len() - i,
    {
        load_func(vars, names[i].as_str(), origin);
        i += 1;
    }
}

impl Module {
    /// Has the host load the native library at the path of this module, and
    /// binds each of the functions it names in the module
    /// ([`bind_library`]). A module without path is an import error; where
    /// that or the host fails, the module stays as it was.
    pub fn load_dylib<H: Host>(&mut self, host: &mut H) -> (r: Result<(), Error>)
        ensures
            final(self)@.path == old(self)@.path,
            old(self)@.path is None ==> r is Err && r->Err_0.kind() == ErrorKind::Import
                && r->Err_0.message() == "The module has no path"@ && r->Err_0.is_plain(),
            r is Err ==> final(self)@ == old(self)@,
            r is Ok ==> exists|names: Seq<Seq<char>>| final(self)@.vars == #[trigger] bind_names(
                old(self)@.vars,
                names,
                old(self)@.path->Some_0,
                0,
            ),
    {
        let path = match &self.path {
            Some(p) => p.clone(),
            None => {
                return Err(Error::new(ErrorKind::Import, "The module has no path"));
            },
        };
        let names = host.load_library(&path)?;
        bind_library(&mut self.vars, &names, path.as_str());
        assert(old(self)@.path == Some(path@));
        assert(self@.vars == bind_names(
            old(self)@.vars,
            Seq::new(names@.len(), |i: int| names@[i]@),
            old(self)@.path->Some_0,
            0,
        ));
        Ok(())
    }
}

/// Calls the native function `f` on the resolved arguments `args`: see
/// [`native_view`]. The functions of the interpreter are told by their
/// names; any other is the host's. A function of a library changes no
/// binding and writes nothing through the session, whatever it gives.
pub fn call_native<H: Host>(
    ns: &mut NameSpace,
    session: &mut Session<H>,
    f: &NativeFuncDef,
    args: &Vec<Block>,
    depth: usize,
) -> (r: Result<Block, Error>)
    ensures
        agrees(
            native_view(at(old(ns)@, old(session).written@), f.name@, f.origin@, blocks_view(args@), depth as nat),
            at(old(ns)@, old(session).written@),
            at(final(ns)@, final(session).written@),
            r,
        ),
        f.origin@.len() != 0 ==> final(ns)@ == old(ns)@ && final(session).written@ == old(
            session,
        ).written@,
    decreases depth, *args, 1nat,
{
    if !f.origin.as_str().is_empty() {
        session.host.call_native(&f.origin, &f.name, &*ns, args)
    } else if spelled(&f.name, "print") {
        _print(session, args)
    } else if spelled(&f.name, "type") {
        _type(args)
    } else if spelled(&f.name, "if") {
        _if(args)
    } else if spelled(&f.name, "len") {
        _len(args)
    } else if spelled(&f.name, "foreach") {
        _foreach(ns, session, args, depth)
    } else if spelled(&f.name, "vars") {
        _vars(ns, args)
    } else if spelled(&f.name, "import") {
        _import(ns, session, args, depth)
    } else if spelled(&f.name, "import_native") {
        _import_native(ns, session, args)
    } else if spelled(&f.name, "spill") {
        _spill(ns, args)
    } else if spelled(&f.name, "assert") {
        _assert(args)
    } else if spelled(&f.name, "exit") {
        _exit(args)
    } else {
        session.host.call_native(&f.origin, &f.name, &*ns, args)
    }
}

} // verus!
