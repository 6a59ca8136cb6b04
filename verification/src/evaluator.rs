//! The evaluator: namespaces, and the functions that walk the tree.
//!
//! Every function states that it computes what [`crate::semantics`] says of
//! the views of its arguments, value or error with its message, and leaves
//! the namespace as it says.

use crate::block::{
    blocks_view, copy_blocks, expressions_view, lemma_blocks_view, option_text, Block, BlockView,
    Expression, FuncDef, Module, ModuleVars, ModuleView,
};
use crate::builtins;
use crate::errors::{Error, ErrorKind};
use crate::number::{
    double_add, double_compare, double_div, double_mul, double_sub, double_to_index, Number,
};
use crate::path::{relative, relative_path};
use crate::pkg::Platform;
use crate::render::{assemble, assemble_view, number_count, pieces_view, Piece, PieceView};
use crate::semantics::{
    actual_args, apply_view, arith_view, assign_view, bind_params_view, call_named_view,
    call_view, callee, collapse, compare_values, definition_error, eval_failure, fold_number,
    formal_params, index_view, number_of, pick_at, pick_index_view, resolve_all_view,
    resolve_view, run_view, solve_access_view, solve_call_view, solve_view, store_view,
    symbol_not_found, Change, Failure, NameSpaceView, Step, World,
};
use crate::text::{chars_of, framed, string_of_range};
use crate::token::Token;
use vstd::prelude::*;

verus! {

/// The call depth that a program is run with unless it asks for another.
/// The depth is what makes every evaluation end: a call below depth zero is
/// an evaluation error. The default is deep enough that the budget does not
/// end a program that a thread with a large stack could carry on with.
pub const DEFAULT_DEPTH: usize = 100_000;

/// What the interpreter asks of the program around it: somewhere to write,
/// how a number reads, a file system to find and read modules in, and
/// someone to load native libraries and to run their functions. Nothing is
/// assumed of the answers.
pub trait Host {
    /// Writes `text` to the output.
    fn print(&mut self, text: &String);

    /// The working directory.
    fn current_dir(&mut self) -> String;

    /// The user's home directory, if there is one.
    fn home_dir(&mut self) -> Option<String>;

    /// Whether `path` is a directory.
    fn is_dir(&mut self, path: &String) -> bool;

    /// Whether `path` is a file.
    fn is_file(&mut self, path: &String) -> bool;

    /// The absolute path of the file at `path`.
    fn canonical_path(&mut self, path: &String) -> Result<String, Error>;

    /// The text of the file at `path`.
    fn read_file(&mut self, path: &String) -> Result<String, Error>;

    /// The kind of system, which decides how native libraries are named.
    fn platform(&mut self) -> Platform;

    /// The text that shows the number whose bit pattern is `bits`.
    fn number_text(&mut self, bits: u64) -> String;

    /// Loads the native library at `path` and hands back the names of its
    /// functions.
    fn load_library(&mut self, path: &String) -> Result<Vec<String>, Error>;

    /// Calls the function `name` of the library `origin` on `args`, from
    /// the namespace `ns`.
    fn call_native(
        &mut self,
        origin: &String,
        name: &String,
        ns: &NameSpace,
        args: &Vec<Block>,
    ) -> Result<Block, Error>;
}

/// A host together with the record of what the interpreter has handed it to
/// write.
pub struct Session<H: Host> {
    /// The host.
    pub host: H,
    /// The pieces of every text handed to the host's `print` so far, one
    /// after the other.
    pub written: Ghost<Seq<PieceView>>,
}

impl<H: Host> Session<H> {
    /// A session with `host`, in which nothing was written yet.
    pub fn new(host: H) -> (s: Session<H>)
        ensures
            s.host == host,
            s.written@ == Seq::<PieceView>::empty(),
    {
        Session { host, written: Ghost(Seq::empty()) }
    }

    /// The text of `pieces`, with each number shown as the host shows it:
    /// the host is asked once for each number piece, in order, and the text
    /// is put together from its answers ([`assemble_view`]).
    pub fn show(&mut self, pieces: &Vec<Piece>) -> (r: String)
        ensures
            final(self).written@ == old(self).written@,
            exists|numbers: Seq<Seq<char>>|
                numbers.len() == number_count(pieces_view(pieces@)) && r@ == assemble_view(
                    pieces_view(pieces@),
                    numbers,
                ),
    {
        let ghost views = pieces_view(pieces@);
        let mut numbers: Vec<String> = Vec::new();
        let mut i: usize = 0;
        assert(views.take(0) =~= Seq::empty());
        while i < pieces.len()
            invariant
                i <= pieces@.len(),
                views == pieces_view(pieces@),
                self.written@ == old(self).written@,
                numbers@.len() == number_count(views.take(i as int)),
            decreases pieces@.len() - i,
        {
            assert(views.take(i + 1).drop_last() =~= views.take(i as int));
            match &pieces[i] {
                Piece::Number(n) => numbers.push(self.host.number_text(n.bits)),
                Piece::Text(_) => {},
            }
            i += 1;
        }
        assert(views.take(i as int) =~= views);
        assemble(pieces, &numbers)
    }

    /// Hands the text of `pieces` ([`Session::show`]) to the host to write,
    /// and records the pieces.
    pub fn print(&mut self, pieces: &Vec<Piece>)
        ensures
            final(self).written@ == old(self).written@ + pieces_view(pieces@),
    {
        let text = self.show(pieces);
        self.host.print(&text);
        self.written = Ghost(self.written@ + pieces_view(pieces@));
    }
}

/// A scope of names: a module, the namespace around it, and, in the
/// outermost namespace, the table of builtins.
#[derive(Debug)]
pub struct NameSpace<'a> {
    pub builtin_funcs: Option<ModuleVars>,
    pub parent: Option<&'a NameSpace<'a>>,
    pub module: Module,
}

/// The view of a namespace.
pub open spec fn namespace_view(ns: NameSpace) -> NameSpaceView
    decreases ns,
{
    NameSpaceView {
        module: ns.module@,
        builtins: match ns.builtin_funcs {
            Some(b) => Some(b@),
            None => None,
        },
        parent: match ns.parent {
            Some(p) => Some(Box::new(namespace_view(*p))),
            None => None,
        },
    }
}

impl<'a> View for NameSpace<'a> {
    type V = NameSpaceView;

    open spec fn view(&self) -> NameSpaceView {
        namespace_view(*self)
    }
}

/// The name that a callee goes by, if it has one, as characters.
pub open spec fn name_view(name: Option<&String>) -> Option<Seq<char>> {
    match name {
        Some(n) => Some(n@),
        None => None,
    }
}

/// What a callee goes by: its name, or `anonymous`.
pub open spec fn callee_name(name: Option<&String>) -> Seq<char> {
    callee(name_view(name))
}

/// Whether `r` is the failure `f`: an error of its kind, with its message,
/// that names no file and no line.
pub open spec fn fails_with<T>(r: Result<T, Error>, f: Failure) -> bool {
    r is Err && r->Err_0.kind() == f.kind && r->Err_0.message() == f.message
        && r->Err_0.is_plain()
}

/// The world made of the namespace `ns` and the pieces `written`.
pub open spec fn at(ns: NameSpaceView, written: Seq<PieceView>) -> World {
    World { ns, written }
}

/// Whether `after` starts with `before`: what was written stays written.
pub open spec fn grown(before: Seq<PieceView>, after: Seq<PieceView>) -> bool {
    before.len() <= after.len() && forall|i: int|
        #![trigger before[i]]
        #![trigger after[i]]
        0 <= i < before.len() ==> after[i] == before[i]
}

/// Whether the world `after` keeps what evaluation never changes in the
/// world `before`: of the namespace only the bindings may have changed, and
/// what was written is still there, in order and in front.
pub open spec fn keeps(before: World, after: World) -> bool {
    after.ns == before.ns.with_vars(after.ns.module.vars) && grown(before.written, after.written)
}

/// Whether the result `r` and the world `after` are what `step` says, the
/// world having been `before`: whatever the step, `after` keeps what
/// evaluation never changes ([`keeps`]). Where the step is the host's, what
/// had been written when the host took over is still there, in order and in
/// front; where it is not, the state and the result are as it says.
pub open spec fn agrees(step: Step, before: World, after: World, r: Result<Block, Error>) -> bool {
    keeps(before, after) && match step {
        Step::Hosted(sofar) => grown(sofar, after.written),
        Step::Done(result, st) => after.state() == st && match result {
            Ok(v) => r is Ok && r->Ok_0@ == v,
            Err(f) => fails_with(r, f),
        },
    }
}

/// [`agrees`] for a result that is a vector of blocks, which stands for
/// their list.
pub open spec fn agrees_list(
    step: Step,
    before: World,
    after: World,
    r: Result<Vec<Block>, Error>,
) -> bool {
    keeps(before, after) && match step {
        Step::Hosted(sofar) => grown(sofar, after.written),
        Step::Done(result, st) => after.state() == st && match result {
            Ok(v) => r is Ok && BlockView::List(blocks_view(r->Ok_0@)) == v,
            Err(f) => fails_with(r, f),
        },
    }
}

/// [`agrees`] for a result without value.
pub open spec fn agrees_unit(step: Step, before: World, after: World, r: Result<(), Error>) -> bool {
    keeps(before, after) && match step {
        Step::Hosted(sofar) => grown(sofar, after.written),
        Step::Done(result, st) => after.state() == st && match result {
            Ok(_) => r is Ok,
            Err(f) => fails_with(r, f),
        },
    }
}

/// Whether the namespace `after` and the success of `r` are what the change
/// `c` says, the namespace having been `before`.
pub open spec fn changes<T>(
    c: Change,
    before: NameSpaceView,
    after: NameSpaceView,
    r: Result<T, Error>,
) -> bool {
    after == before.with_vars(c.vars) && match c.result {
        Ok(_) => r is Ok,
        Err(f) => fails_with(r, f),
    }
}

/// The number that an operand of an arithmetic operator stands for: see
/// [`number_of`].
fn operand(v: &Block) -> (r: Option<u64>)
    ensures
        r == number_of(v@),
{
    match v {
        Block::Object(Token::Number(n)) => Some(n.bits),
        Block::List(l) => {
            proof {
                lemma_blocks_view(l@);
            }
            if l.len() == 1 {
                match &l[0] {
                    Block::Object(Token::Number(n)) => Some(n.bits),
                    _ => None,
                }
            } else {
                None
            }
        },
        _ => None,
    }
}

/// One step of the left fold of an arithmetic operator: see
/// [`fold_number`].
fn fold(acc: Option<u64>, op: char, n: u64) -> (r: u64)
    ensures
        r == fold_number(acc, op, n),
{
    match acc {
        Some(a) => {
            if op == '+' {
                double_add(a, n)
            } else if op == '-' {
                double_sub(a, n)
            } else if op == '*' {
                double_mul(a, n)
            } else if op == '/' {
                double_div(a, n)
            } else {
                n
            }
        },
        None => n,
    }
}

/// The index that the number `n` stands for: see [`index_view`].
pub fn index_of_number(n: &Number) -> (r: Option<usize>)
    ensures
        match index_view(n.bits) {
            Some(i) => r == Some(i as usize),
            None => r is None,
        },
{
    let order = double_compare(n.bits, 0);
    if order == crate::compare::LESS || order == crate::compare::UNORDERED {
        return None;
    }
    let i = double_to_index(n.bits);
    if i <= usize::MAX as u64 {
        Some(i as usize)
    } else {
        None
    }
}

/// Whether the string `s` is spelled `lit`.
pub fn spelled(s: &String, lit: &str) -> (r: bool)
    ensures
        r == (s@ == lit@),
{
    *s == lit.to_owned()
}

/// The outcome of the comparison `a op b`: see [`compare_values`].
pub fn compare(op: &String, a: &Block, b: &Block) -> (r: Result<Block, Error>)
    ensures
        match compare_values(op@, a@, b@) {
            Ok(v) => r is Ok && r->Ok_0@ == v,
            Err(f) => fails_with(r, f),
        },
{
    if spelled(op, "==") {
        Ok(Block::Bool(a.equals(b)))
    } else if spelled(op, "!=") {
        Ok(Block::Bool(!a.equals(b)))
    } else if spelled(op, ">") {
        Ok(Block::Bool(a.order(b) == crate::compare::GREATER))
    } else if spelled(op, "<") {
        Ok(Block::Bool(a.order(b) == crate::compare::LESS))
    } else if spelled(op, ">=") {
        let c = a.order(b);
        Ok(Block::Bool(c == crate::compare::GREATER || c == crate::compare::EQUAL))
    } else if spelled(op, "<=") {
        let c = a.order(b);
        Ok(Block::Bool(c == crate::compare::LESS || c == crate::compare::EQUAL))
    } else {
        Err(Error::new(ErrorKind::Eval, "Unsupported operator"))
    }
}

/// What several resolved values collapse to: see [`collapse`].
pub fn collapsed(vals: Vec<Block>) -> (r: Block)
    ensures
        r@ == collapse(blocks_view(vals@)),
{
    let mut vals = vals;
    if vals.len() == 0 {
        Block::Null
    } else if vals.len() == 1 {
        match vals.pop() {
            Some(b) => b,
            None => Block::Null,
        }
    } else {
        Block::List(vals)
    }
}

/// The element at index `i` of a list, or the character at index `i` of a
/// text: see [`pick_at`].
pub fn pick(things: &Block, i: usize) -> (r: Result<Block, Error>)
    ensures
        match pick_at(things@, i as int) {
            Ok(v) => r is Ok && r->Ok_0@ == v,
            Err(f) => fails_with(r, f),
        },
{
    match things {
        Block::List(a) => {
            proof {
                lemma_blocks_view(a@);
            }
            if i < a.len() {
                Ok(a[i].copy())
            } else {
                Err(Error::new(ErrorKind::Eval, "list index out of range"))
            }
        },
        Block::Object(Token::Text(t)) => {
            let chars = chars_of(t.as_str());
            if i < chars.len() {
                let s = string_of_range(&chars, i, i + 1);
                assert(s@ =~= seq![t@[i as int]]);
                Ok(Block::Object(Token::Text(s)))
            } else {
                Err(Error::new(ErrorKind::Eval, "text index out of range"))
            }
        },
        _ => Err(Error::new(ErrorKind::Eval, "cannot index this value")),
    }
}

impl<'a> NameSpace<'a> {
    /// A namespace without bindings for a module read from `path`, inside
    /// `parent`. The outermost namespace holds the builtins.
    pub fn new(path: Option<String>, parent: Option<&'a NameSpace<'a>>) -> (ns: NameSpace<'a>)
        ensures
            ns@.module == (ModuleView { vars: Seq::empty(), path: option_text(path) }),
            match parent {
                Some(p) => ns@.parent == Some(Box::new(p@)) && ns@.builtins is None,
                None => ns@.parent is None && ns@.builtins == Some(
                    builtins::with_builtins(Seq::empty()),
                ),
            },
    {
        let builtin_funcs = match parent {
            Some(_) => None,
            None => {
                let mut b = ModuleVars::new();
                builtins::load_all(&mut b);
                Some(b)
            },
        };
        NameSpace { module: Module::new(path), builtin_funcs, parent }
    }

    /// The module of the namespace, as a value.
    pub fn to_block(self) -> (r: Result<Block, Error>)
        ensures
            r is Ok,
            r->Ok_0@ == BlockView::Mod(self@.module),
    {
        Ok(Block::Mod(self.module))
    }

    /// The evaluation error for the unbound name `key`.
    fn unbound(key: &String) -> (e: Error)
        ensures
            e.kind() == ErrorKind::Eval,
            e.message() == symbol_not_found(key@),
            e.is_plain(),
    {
        Error::new(ErrorKind::Eval, framed("Symbol '", key.as_str(), "' not found").as_str())
    }

    /// The value that `key` is bound to: see [`NameSpaceView::get`]. An
    /// unbound name is an evaluation error that names it
    /// ([`symbol_not_found`]).
    pub fn get(&self, key: &String) -> (r: Result<Block, Error>)
        ensures
            match self@.get(key@) {
                Some(v) => r is Ok && r->Ok_0@ == v,
                None => fails_with(r, eval_failure(symbol_not_found(key@))),
            },
        decreases self,
    {
        match self.module.vars.get(key) {
            Some(v) => Ok(v.copy()),
            None => match self.parent {
                Some(p) => p.get(key),
                None => match &self.builtin_funcs {
                    Some(b) => match b.get(key) {
                        Some(v) => Ok(v.copy()),
                        None => Err(NameSpace::unbound(key)),
                    },
                    None => Err(NameSpace::unbound(key)),
                },
            },
        }
    }

    /// Binds `key` to `value` in this namespace.
    pub fn set(&mut self, key: String, value: Block)
        ensures
            final(self)@ == old(self)@.with_vars(
                crate::block::bind(old(self)@.module.vars, key@, value@),
            ),
    {
        self.module.vars.insert(key, value);
    }

    /// The path of this namespace's module, or of the nearest namespace
    /// around it that has one.
    pub fn get_path(&self) -> (r: Option<String>)
        ensures
            option_text(r) == self@.path(),
        decreases self,
    {
        match &self.module.path {
            Some(p) => Some(p.clone()),
            None => match self.parent {
                Some(p) => p.get_path(),
                None => None,
            },
        }
    }

    /// The path `p` as seen from the module of this namespace, which is a
    /// directory or a file as `current_is_dir` says: see [`relative_path`].
    pub fn get_relative_path(&self, p: &String, current_is_dir: bool) -> (r: String)
        ensures
            r@ == relative_path(self@.path(), current_is_dir, p@),
    {
        relative(&self.get_path(), current_is_dir, p.as_str())
    }

    /// Stores `val` under the target `key`: see [`store_view`].
    pub fn store(&mut self, key: &Block, val: Block) -> (r: Result<(), Error>)
        ensures
            changes(store_view(old(self)@, key@, val@), old(self)@, final(self)@, r),
    {
        match key {
            Block::Object(Token::Symbol(var)) => {
                self.set(var.clone(), val);
                Ok(())
            },
            Block::Expr(e) => {
                proof {
                    lemma_blocks_view(e.elems@);
                    assert(key@ == BlockView::Expr(Box::new(crate::block::expression_view(**e))));
                }
                if e.elems.len() < 2 {
                    return Err(Error::new(ErrorKind::Eval, "Unsupported assignment"));
                }
                match &e.elems[0] {
                    Block::Object(Token::Symbol(k)) => {
                        let i = match self.module.vars.find(k) {
                            Some(i) => i,
                            None => {
                                return Err(
                                    Error::new(
                                        ErrorKind::Eval,
                                        framed("Symbol '", k.as_str(), "' not found in scope").as_str(),
                                    ),
                                );
                            },
                        };
                        match (&e.op, &e.elems[1]) {
                            (Block::Operator(Token::Index), Block::Object(Token::Number(n))) => {
                                if !matches!(self.module.vars.bindings()[i].value, Block::List(_)) {
                                    return Err(
                                        Error::new(
                                            ErrorKind::Eval,
                                            "List assignment failed List update error: Not a list",
                                        ),
                                    );
                                }
                                let done = match index_of_number(n) {
                                    Some(idx) => self.module.vars.set_item(i, idx as u64, val),
                                    None => false,
                                };
                                if done {
                                    Ok(())
                                } else {
                                    Err(Error::new(ErrorKind::Eval, "List assignment failed"))
                                }
                            },
                            (Block::Operator(Token::Accessor), Block::Object(Token::Symbol(prop))) => {
                                if self.module.vars.set_member(i, prop.clone(), val) {
                                    Ok(())
                                } else {
                                    Err(Error::new(ErrorKind::Eval, "Unsupported assignment"))
                                }
                            },
                            _ => Err(Error::new(ErrorKind::Eval, "Unsupported assignment")),
                        }
                    },
                    _ => Err(Error::new(ErrorKind::Eval, "Unsupported assignment")),
                }
            },
            _ => Err(Error::new(ErrorKind::Eval, "LHS is not a valid symbol")),
        }
    }

    /// The outcome of `things[idx]`: see [`pick_index_view`].
    pub fn pick_index(&self, idx: &Block, things: &Block) -> (r: Result<Block, Error>)
        ensures
            match pick_index_view(idx@, things@) {
                Ok(v) => r is Ok && r->Ok_0@ == v,
                Err(f) => fails_with(r, f),
            },
    {
        match idx {
            Block::Object(Token::Number(n)) => match index_of_number(n) {
                Some(i) => pick(things, i),
                None => Err(Error::new(ErrorKind::Eval, "index out of range")),
            },
            _ => Err(Error::new(ErrorKind::Eval, "cannot index with this value")),
        }
    }

    /// Runs the statements `elist` in this namespace: see [`run_view`].
    #[verifier::loop_isolation(false)]
    pub fn run<H: Host>(&mut self, session: &mut Session<H>, elist: &Vec<Expression>, depth: usize) -> (r:
        Result<Block, Error>)
        ensures
            agrees(
                run_view(at(old(self)@, old(session).written@), expressions_view(elist@), 0, BlockView::Null, depth as nat),
                at(old(self)@, old(session).written@),
                at(final(self)@, final(session).written@),
                r,
            ),
        decreases depth, *elist, 0nat,
    {
        let ghost body = expressions_view(elist@);
        let ghost total = run_view(
            at(old(self)@, old(session).written@),
            body,
            0,
            BlockView::Null,
            depth as nat,
        );
        let mut return_val = Block::Null;
        let mut i: usize = 0;
        while i < elist.len()
            invariant
                i <= elist@.len(),
                self@ == old(self)@.with_vars(self@.module.vars),
                grown(old(session).written@, session.written@),
                (total is Hosted && grown(total->Hosted_0, session.written@)) || run_view(
                    at(self@, session.written@),
                    body,
                    i as int,
                    return_val@,
                    depth as nat,
                ) == total,
            decreases elist@.len() - i,
        {
            return_val = self.solve_expr(session, &elist[i], depth)?;
            if matches!(elist[i].op, Block::Operator(Token::FuncReturn)) {
                if self.parent.is_none() {
                    return Err(Error::new(ErrorKind::Eval, "cannot use return here!"));
                } else {
                    return Ok(return_val);
                }
            }
            i += 1;
        }
        Ok(return_val)
    }

    /// Resolves the block `o` to a value: see [`resolve_view`].
    pub fn resolve<H: Host>(&mut self, session: &mut Session<H>, o: &Block, depth: usize) -> (r: Result<
        Block,
        Error,
    >)
        ensures
            agrees(resolve_view(at(old(self)@, old(session).written@), o@, depth as nat), at(old(self)@, old(session).written@), at(final(self)@, final(session).written@), r),
        decreases depth, *o, 0nat,
    {
        match o {
            Block::Expr(ex) => self.solve_expr(session, ex, depth),
            Block::Object(Token::Symbol(s)) => self.get(s),
            Block::List(l) => {
                let bl = self.resolve_vector(session, l, depth)?;
                Ok(Block::List(bl))
            },
            Block::ModBody(m) => {
                let mut ns = NameSpace::new(None, Some(&*self));
                match ns.run(session, m, depth) {
                    Ok(_) => ns.to_block(),
                    Err(e) => Err(e),
                }
            },
            Block::FuncBody(_) => Ok(Block::Null),
            _ => Ok(o.copy()),
        }
    }

    /// Resolves the blocks of `input` from left to right: see
    /// [`resolve_all_view`].
    #[verifier::loop_isolation(false)]
    pub fn resolve_vector<H: Host>(&mut self, session: &mut Session<H>, input: &Vec<Block>, depth: usize) -> (r:
        Result<Vec<Block>, Error>)
        ensures
            agrees_list(
                resolve_all_view(at(old(self)@, old(session).written@), blocks_view(input@), 0, Seq::empty(), depth as nat),
                at(old(self)@, old(session).written@),
                at(final(self)@, final(session).written@),
                r,
            ),
        decreases depth, *input, 1nat,
    {
        let ghost items = blocks_view(input@);
        let ghost total = resolve_all_view(
            at(old(self)@, old(session).written@),
            items,
            0,
            Seq::empty(),
            depth as nat,
        );
        let mut out: Vec<Block> = Vec::new();
        let mut i: usize = 0;
        assert(blocks_view(out@) =~= Seq::empty());
        while i < input.len()
            invariant
                i <= input@.len(),
                self@ == old(self)@.with_vars(self@.module.vars),
                grown(old(session).written@, session.written@),
                (total is Hosted && grown(total->Hosted_0, session.written@)) || resolve_all_view(
                    at(self@, session.written@),
                    items,
                    i as int,
                    blocks_view(out@),
                    depth as nat,
                ) == total,
            decreases input@.len() - i,
        {
            let o = self.resolve(session, &input[i], depth)?;
            let ghost before = blocks_view(out@);
            out.push(o);
            assert(blocks_view(out@) =~= before.push(o@));
            i += 1;
        }
        Ok(out)
    }

    /// Assigns `value` to the target `key`: see [`assign_view`].
    pub fn assign<H: Host>(&mut self, session: &mut Session<H>, key: &Block, value: &Block, depth: usize) -> (r:
        Result<(), Error>)
        ensures
            agrees_unit(
                assign_view(at(old(self)@, old(session).written@), key@, value@, depth as nat),
                at(old(self)@, old(session).written@),
                at(final(self)@, final(session).written@),
                r,
            ),
        decreases depth, *value, 1nat,
    {
        let val = self.resolve(session, value, depth)?;
        self.store(key, val)
    }

    /// Folds the arithmetic operator `op` over the operands `elems`: see
    /// [`arith_view`].
    #[verifier::loop_isolation(false)]
    fn solve_arith<H: Host>(&mut self, session: &mut Session<H>, op: char, elems: &Vec<Block>, depth: usize) -> (r:
        Result<Block, Error>)
        ensures
            agrees(
                arith_view(at(old(self)@, old(session).written@), op, blocks_view(elems@), 0, None, depth as nat),
                at(old(self)@, old(session).written@),
                at(final(self)@, final(session).written@),
                r,
            ),
        decreases depth, *elems, 1nat,
    {
        let ghost items = blocks_view(elems@);
        let ghost total = arith_view(
            at(old(self)@, old(session).written@),
            op,
            items,
            0,
            None,
            depth as nat,
        );
        let mut res: Option<u64> = None;
        let mut i: usize = 0;
        while i < elems.len()
            invariant
                i <= elems@.len(),
                self@ == old(self)@.with_vars(self@.module.vars),
                grown(old(session).written@, session.written@),
                (total is Hosted && grown(total->Hosted_0, session.written@)) || arith_view(
                    at(self@, session.written@),
                    op,
                    items,
                    i as int,
                    res,
                    depth as nat,
                ) == total,
            decreases elems@.len() - i,
        {
            let v = self.resolve(session, &elems[i], depth)?;
            let num = match operand(&v) {
                Some(n) => n,
                None => {
                    return Err(Error::new(ErrorKind::Eval, "Cannot perform Arith on this value"));
                },
            };
            res = Some(fold(res, op, num));
            i += 1;
        }
        match res {
            Some(bits) => Ok(Block::Object(Token::Number(Number { bits }))),
            None => Err(Error::new(ErrorKind::Eval, "Arith error")),
        }
    }

    /// Resolves both operands and compares them: see [`compare_values`].
    fn solve_comparison<H: Host>(
        &mut self,
        session: &mut Session<H>,
        op: &String,
        elems: &Vec<Block>,
        depth: usize,
    ) -> (r: Result<Block, Error>)
        ensures
            agrees(
                match resolve_all_view(
                    at(old(self)@, old(session).written@),
                    blocks_view(elems@),
                    0,
                    Seq::empty(),
                    depth as nat,
                ) {
                    Step::Done(Ok(BlockView::List(vals)), vars) => if vals.len() == 2 {
                        Step::Done(compare_values(op@, vals[0], vals[1]), vars)
                    } else {
                        Step::Done(Err(eval_failure("Illegal comparison operation"@)), vars)
                    },
                    other => other,
                },
                at(old(self)@, old(session).written@),
                at(final(self)@, final(session).written@),
                r,
            ),
        decreases depth, *elems, 2nat,
    {
        let vals = self.resolve_vector(session, elems, depth)?;
        if vals.len() == 2 {
            compare(op, &vals[0], &vals[1])
        } else {
            Err(Error::new(ErrorKind::Eval, "Illegal comparison operation"))
        }
    }

    /// The arguments of a call, copied: see [`actual_args`].
    fn arguments(args: &Block) -> (actual: Vec<Block>)
        ensures
            blocks_view(actual@) == actual_args(args@),
    {
        match args {
            Block::List(l) => copy_blocks(l),
            _ => {
                let mut v: Vec<Block> = Vec::new();
                v.push(args.copy());
                v
            },
        }
    }

    /// What a callee goes by: see [`callee_name`].
    fn callee(name: Option<&String>) -> (r: String)
        ensures
            r@ == callee_name(name),
    {
        match name {
            Some(n) => n.clone(),
            None => "anonymous".to_owned(),
        }
    }

    /// The evaluation error for what is called under `name` and is no
    /// function with a body.
    fn no_definition(name: Option<&String>) -> (e: Error)
        ensures
            e.kind() == ErrorKind::Eval,
            e.message() == definition_error(callee_name(name)),
            e.is_plain(),
    {
        let callee = NameSpace::callee(name);
        Error::new(
            ErrorKind::Eval,
            framed("function '", callee.as_str(), "' definition error").as_str(),
        )
    }

    /// The parameters of a function, copied: see [`formal_params`].
    fn parameters(args: &Block) -> (params: Vec<Block>)
        ensures
            blocks_view(params@) == formal_params(args@),
    {
        match args.get_list() {
            Some(l) => l,
            None => {
                let l: Vec<Block> = Vec::new();
                l
            },
        }
    }

    /// Applies the function `f` to `args`: see [`apply_view`]. `name` is
    /// what the function goes by, if anything: an error of the call names
    /// it.
    #[verifier::loop_isolation(false)]
    fn apply<H: Host>(
        &mut self,
        session: &mut Session<H>,
        f: &FuncDef,
        args: &Block,
        name: Option<&String>,
        depth: usize,
    ) -> (r: Result<Block, Error>)
        ensures
            agrees(
                apply_view(
                    at(old(self)@, old(session).written@),
                    f@,
                    args@,
                    depth as nat,
                    name_view(name),
                ),
                at(old(self)@, old(session).written@),
                at(final(self)@, final(session).written@),
                r,
            ),
        decreases depth, *args, 0nat,
    {
        if depth == 0 {
            return Err(Error::new(ErrorKind::Eval, "call depth exhausted"));
        }
        let below = depth - 1;
        let actual = NameSpace::arguments(args);
        let params = NameSpace::parameters(&f.args);
        if params.len() != actual.len() {
            let callee = NameSpace::callee(name);
            return Err(
                Error::new(
                    ErrorKind::Eval,
                    framed("function arguments for '", callee.as_str(), "' don't match").as_str(),
                ),
            );
        }
        let ghost formal = blocks_view(params@);
        let ghost given = blocks_view(actual@);
        let ghost bound = bind_params_view(
            at(self@, session.written@).child(Seq::empty(), None),
            formal,
            given,
            0,
            below as nat,
        );
        let mut exec_env = NameSpace::new(None, Some(&*self));
        let mut i: usize = 0;
        while i < actual.len()
            invariant
                i <= actual@.len(),
                params@.len() == actual@.len(),
                exec_env@ == self@.child(exec_env@.module.vars, None),
                grown(old(session).written@, session.written@),
                (bound is Hosted && grown(bound->Hosted_0, session.written@)) || bind_params_view(
                    at(exec_env@, session.written@),
                    formal,
                    given,
                    i as int,
                    below as nat,
                ) == bound,
            decreases actual@.len() - i,
        {
            exec_env.assign(session, &params[i], &actual[i], below)?;
            i += 1;
        }
        match &f.body {
            Block::FuncBody(elist) => exec_env.run(session, elist, below),
            _ => Err(NameSpace::no_definition(name)),
        }
    }

    /// Calls `func` on `args`: see [`call_view`]. `name` is what the callee
    /// goes by, if anything: an error of the call names it.
    pub fn eval_func_obj<H: Host>(
        &mut self,
        session: &mut Session<H>,
        func: &Block,
        args: &Block,
        name: Option<&String>,
        depth: usize,
    ) -> (r: Result<Block, Error>)
        ensures
            agrees(
                call_view(
                    at(old(self)@, old(session).written@),
                    func@,
                    args@,
                    depth as nat,
                    name_view(name),
                ),
                at(old(self)@, old(session).written@),
                at(final(self)@, final(session).written@),
                r,
            ),
        decreases depth, *args, 1nat,
    {
        if depth == 0 {
            return Err(Error::new(ErrorKind::Eval, "call depth exhausted"));
        }
        let below = depth - 1;
        match func {
            Block::Func(f) => self.apply(session, f, args, name, depth),
            Block::NativeFunc(f) => {
                let actual = NameSpace::arguments(args);
                let clean_args = self.resolve_vector(session, &actual, below)?;
                builtins::call_native(self, session, f, &clean_args, below)
            },
            _ => Err(NameSpace::no_definition(name)),
        }
    }

    /// Calls what `name` is bound to on `args`: see [`call_named_view`].
    fn eval_func<H: Host>(&mut self, session: &mut Session<H>, name: &String, args: &Block, depth: usize) -> (r:
        Result<Block, Error>)
        ensures
            agrees(
                call_named_view(at(old(self)@, old(session).written@), name@, args@, depth as nat),
                at(old(self)@, old(session).written@),
                at(final(self)@, final(session).written@),
                r,
            ),
        decreases depth, *args, 2nat,
    {
        match self.get(name) {
            Err(_) => Err(
                Error::new(
                    ErrorKind::Eval,
                    framed("function '", name.as_str(), "' not defined").as_str(),
                ),
            ),
            Ok(func) => self.eval_func_obj(session, &func, args, Some(name), depth),
        }
    }

    /// Solves the call expression `exp`: see [`solve_call_view`].
    fn solve_call<H: Host>(&mut self, session: &mut Session<H>, exp: &Expression, depth: usize) -> (r: Result<
        Block,
        Error,
    >)
        ensures
            agrees(solve_call_view(at(old(self)@, old(session).written@), exp@, depth as nat), at(old(self)@, old(session).written@), at(final(self)@, final(session).written@), r),
        decreases depth, *exp, 0nat,
    {
        proof {
            lemma_blocks_view(exp.elems@);
        }
        if exp.elems.len() == 0 {
            return Err(Error::new(ErrorKind::Eval, "Illegal function call"));
        }
        match &exp.elems[0] {
            Block::Object(Token::Symbol(func_name)) => {
                if exp.elems.len() < 2 {
                    return Err(Error::new(ErrorKind::Eval, "Illegal function call"));
                }
                self.eval_func(session, func_name, &exp.elems[1], depth)
            },
            Block::Func(_) => {
                if exp.elems.len() < 2 {
                    return Err(Error::new(ErrorKind::Eval, "Illegal function call"));
                }
                self.eval_func_obj(session, &exp.elems[0], &exp.elems[1], None, depth)
            },
            Block::Expr(ex) => {
                if exp.elems.len() < 2 {
                    return Err(Error::new(ErrorKind::Eval, "Illegal function call"));
                }
                let func = self.solve_expr(session, ex, depth)?;
                self.eval_func_obj(session, &func, &exp.elems[1], None, depth)
            },
            _ => Ok(Block::Null),
        }
    }

    /// Solves the accessor expression `exp`: see [`solve_access_view`].
    fn solve_access<H: Host>(&mut self, session: &mut Session<H>, exp: &Expression, depth: usize) -> (r:
        Result<Block, Error>)
        ensures
            agrees(solve_access_view(at(old(self)@, old(session).written@), exp@, depth as nat), at(old(self)@, old(session).written@), at(final(self)@, final(session).written@), r),
        decreases depth, *exp, 0nat,
    {
        proof {
            lemma_blocks_view(exp.elems@);
        }
        if exp.elems.len() != 2 {
            return Err(Error::new(ErrorKind::Eval, "Illegal access operation"));
        }
        match self.resolve(session, &exp.elems[0], depth)? {
            Block::Mod(m) => match &exp.elems[1] {
                Block::Object(Token::Symbol(s)) => match m.vars.get(s) {
                    Some(v) => Ok(v.copy()),
                    None => Err(Error::new(ErrorKind::Eval, "member not found")),
                },
                Block::Expr(x) => {
                    if matches!(x.op, Block::Operator(Token::Assign)) {
                        Err(Error::new(ErrorKind::Eval, "cannot assign into module"))
                    } else {
                        let mut ns = NameSpace {
                            builtin_funcs: None,
                            module: m,
                            parent: Some(&*self),
                        };
                        ns.solve_expr(session, x, depth)
                    }
                },
                _ => Err(Error::new(ErrorKind::Eval, "invalid use of '.' accessor")),
            },
            _ => Err(Error::new(ErrorKind::Eval, "invalid use of '.' accessor")),
        }
    }

    /// Solves the expression `exp` by its operator: see [`solve_view`].
    pub fn solve_expr<H: Host>(&mut self, session: &mut Session<H>, exp: &Expression, depth: usize) -> (r:
        Result<Block, Error>)
        ensures
            agrees(solve_view(at(old(self)@, old(session).written@), exp@, depth as nat), at(old(self)@, old(session).written@), at(final(self)@, final(session).written@), r),
        decreases depth, *exp, 1nat,
    {
        match &exp.op {
            Block::Operator(Token::Assign) => {
                if exp.elems.len() != 2 {
                    return Err(Error::new(ErrorKind::Eval, "Illegal assignment"));
                }
                self.assign(session, &exp.elems[0], &exp.elems[1], depth)?;
                Ok(Block::Null)
            },
            Block::Operator(Token::Arith(op)) => {
                if exp.elems.len() != 2 {
                    return Err(Error::new(ErrorKind::Eval, "Illegal arithmetic operation"));
                }
                self.solve_arith(session, *op, &exp.elems, depth)
            },
            Block::Operator(Token::Comparison(op)) => {
                if exp.elems.len() != 2 {
                    return Err(Error::new(ErrorKind::Eval, "Illegal comparison operation"));
                }
                self.solve_comparison(session, op, &exp.elems, depth)
            },
            Block::Operator(Token::FuncCall) => self.solve_call(session, exp, depth),
            Block::Operator(Token::FuncReturn) | Block::Operator(Token::List) => {
                let ret_list = self.resolve_vector(session, &exp.elems, depth)?;
                Ok(collapsed(ret_list))
            },
            Block::Operator(Token::Index) => {
                if exp.elems.len() != 2 {
                    return Err(Error::new(ErrorKind::Eval, "Illegal index operation"));
                }
                let val = self.resolve(session, &exp.elems[0], depth)?;
                let idx = self.resolve(session, &exp.elems[1], depth)?;
                self.pick_index(&idx, &val)
            },
            Block::Operator(Token::Accessor) => self.solve_access(session, exp, depth),
            _ => exp.copy().to_block(),
        }
    }
}

} // verus!
