//! What evaluation means: the value and the bindings that each construct of
//! the language yields, or the error with its message, as spec functions
//! over views. The executable evaluator is proved to compute exactly this.
//!
//! Evaluation goes on in a [`World`]: a namespace, and the pieces written
//! so far. It is bounded by a call depth: every call of a function takes one
//! level, and a call at depth zero fails. Where evaluation reaches something
//! that only the host can answer (an import, a function of a native
//! library), its outcome is [`Step::Hosted`], with what had been written
//! until then: of such a step the evaluator promises only what holds
//! whatever the host answers, that the namespace changes in its bindings
//! alone and that what was written until then stays written.

use crate::block::{
    bind, index_of, lookup, merge, names, BlockView, ExpressionView, FuncDefView, ModuleView,
    Vars,
};
use crate::compare::{block_eq, block_order, EQUAL, GREATER, LESS, UNORDERED};
use crate::errors::ErrorKind;
use crate::number::{
    double_difference, double_index, double_of_count, double_order, double_product,
    double_quotient, double_sum,
};
use crate::parser::to_block_view;
use crate::render::{print_pieces, PieceView};
use crate::token::TokenView;
use vstd::prelude::*;

verus! {

/// The view of a namespace: its module, the builtin table (at the root of a
/// chain), and the namespace around it.
pub struct NameSpaceView {
    pub module: ModuleView,
    pub builtins: Option<Vars>,
    pub parent: Option<Box<NameSpaceView>>,
}

/// What evaluation changes: the bindings of the namespace, and the pieces
/// written.
pub struct State {
    pub vars: Vars,
    pub written: Seq<PieceView>,
}

/// What evaluation goes on in: a namespace, and the pieces written so far.
pub struct World {
    pub ns: NameSpaceView,
    pub written: Seq<PieceView>,
}

/// Why something failed: the kind of the error, and its message.
pub struct Failure {
    pub kind: ErrorKind,
    pub message: Seq<char>,
}

/// The evaluation error with the message `message`.
pub open spec fn eval_failure(message: Seq<char>) -> Failure {
    Failure { kind: ErrorKind::Eval, message }
}

/// The message for the unbound name `name`.
pub open spec fn symbol_not_found(name: Seq<char>) -> Seq<char> {
    "Symbol '"@ + name + "' not found"@
}

/// The message for the name `name` that the innermost namespace does not
/// bind.
pub open spec fn symbol_not_in_scope(name: Seq<char>) -> Seq<char> {
    "Symbol '"@ + name + "' not found in scope"@
}

/// What a callee goes by: its name, or `anonymous`.
pub open spec fn callee(name: Option<Seq<char>>) -> Seq<char> {
    match name {
        Some(n) => n,
        None => "anonymous"@,
    }
}

/// The message for a call of `name` with another number of arguments than
/// the function has parameters.
pub open spec fn arguments_mismatch(name: Seq<char>) -> Seq<char> {
    "function arguments for '"@ + name + "' don't match"@
}

/// The message for what is called under `name` and is no function with a
/// body.
pub open spec fn definition_error(name: Seq<char>) -> Seq<char> {
    "function '"@ + name + "' definition error"@
}

/// The message for a call of the unbound name `name`.
pub open spec fn function_not_defined(name: Seq<char>) -> Seq<char> {
    "function '"@ + name + "' not defined"@
}

/// The outcome of evaluating something in a world.
pub enum Step {
    /// The value or the failure, and the state afterwards.
    Done(Result<BlockView, Failure>, State),
    /// The outcome is the host's to decide; the pieces are what had been
    /// written when the host took over.
    Hosted(Seq<PieceView>),
}

/// The outcome of an operation that only changes bindings: its value or the
/// failure, and the bindings afterwards.
pub struct Change {
    pub result: Result<BlockView, Failure>,
    pub vars: Vars,
}

impl NameSpaceView {
    /// This namespace with `vars` as its bindings.
    pub open spec fn with_vars(self, vars: Vars) -> NameSpaceView {
        NameSpaceView {
            module: ModuleView { vars, path: self.module.path },
            builtins: self.builtins,
            parent: self.parent,
        }
    }

    /// The namespace of a scope opened inside this one, with the bindings
    /// `vars`.
    pub open spec fn child(self, vars: Vars, path: Option<Seq<char>>) -> NameSpaceView {
        NameSpaceView {
            module: ModuleView { vars, path },
            builtins: None,
            parent: Some(Box::new(self)),
        }
    }

    /// The value that `key` is bound to: in this namespace, or else in the
    /// nearest namespace around it that binds it, or else in the builtin
    /// table of the outermost one.
    pub open spec fn get(self, key: Seq<char>) -> Option<BlockView>
        decreases self,
    {
        match lookup(self.module.vars, key) {
            Some(v) => Some(v),
            None => match self.parent {
                Some(p) => p.get(key),
                None => match self.builtins {
                    Some(b) => lookup(b, key),
                    None => None,
                },
            },
        }
    }

    /// The path of this namespace's module, or else of the nearest one
    /// around it that has a path.
    pub open spec fn path(self) -> Option<Seq<char>>
        decreases self,
    {
        match self.module.path {
            Some(p) => Some(p),
            None => match self.parent {
                Some(p) => p.path(),
                None => None,
            },
        }
    }
}

impl World {
    /// The state of this world.
    pub open spec fn state(self) -> State {
        State { vars: self.ns.module.vars, written: self.written }
    }

    /// This world in the state `st`.
    pub open spec fn with(self, st: State) -> World {
        World { ns: self.ns.with_vars(st.vars), written: st.written }
    }

    /// The world of a scope opened inside the namespace of this one, with
    /// the bindings `vars`.
    pub open spec fn child(self, vars: Vars, path: Option<Seq<char>>) -> World {
        World { ns: self.ns.child(vars, path), written: self.written }
    }

    /// The state of this world after something went on in a world inside
    /// it, which ended in the state `inner`: the bindings are those of this
    /// world, the pieces written are those of the inner one.
    pub open spec fn after(self, inner: State) -> State {
        State { vars: self.ns.module.vars, written: inner.written }
    }

    /// The outcome in this world of an operation that only changes
    /// bindings.
    pub open spec fn changed(self, c: Change) -> Step {
        Step::Done(c.result, State { vars: c.vars, written: self.written })
    }

    /// The outcome in this world of an operation that changes nothing.
    pub open spec fn unchanged(self, r: Result<BlockView, Failure>) -> Step {
        Step::Done(r, self.state())
    }
}

/// Success with the value `v`, the state of `w` unchanged.
pub open spec fn ok(v: BlockView, w: World) -> Step {
    Step::Done(Ok(v), w.state())
}

/// The failure `f`, the state of `w` unchanged.
pub open spec fn fail(f: Failure, w: World) -> Step {
    Step::Done(Err(f), w.state())
}

/// The number that an operand of an arithmetic operator stands for: a
/// number itself, or the only element of a one-element list.
pub open spec fn number_of(v: BlockView) -> Option<u64> {
    match v {
        BlockView::Object(TokenView::Number(n)) => Some(n),
        BlockView::List(l) => if l.len() == 1 {
            match l[0] {
                BlockView::Object(TokenView::Number(n)) => Some(n),
                _ => None,
            }
        } else {
            None
        },
        _ => None,
    }
}

/// The left fold of an arithmetic operator: `acc op n`, or `n` where there
/// is no `acc` yet or `op` is none of `+ - * /`.
pub open spec fn fold_number(acc: Option<u64>, op: char, n: u64) -> u64 {
    match acc {
        Some(a) => if op == '+' {
            double_sum(a, n)
        } else if op == '-' {
            double_difference(a, n)
        } else if op == '*' {
            double_product(a, n)
        } else if op == '/' {
            double_quotient(a, n)
        } else {
            n
        },
        None => n,
    }
}

/// The outcome of the comparison `a op b`.
pub open spec fn compare_values(op: Seq<char>, a: BlockView, b: BlockView) -> Result<
    BlockView,
    Failure,
> {
    if op == "=="@ {
        Ok(BlockView::Bool(block_eq(a, b)))
    } else if op == "!="@ {
        Ok(BlockView::Bool(!block_eq(a, b)))
    } else if op == ">"@ {
        Ok(BlockView::Bool(block_order(a, b) == GREATER))
    } else if op == "<"@ {
        Ok(BlockView::Bool(block_order(a, b) == LESS))
    } else if op == ">="@ {
        Ok(BlockView::Bool(block_order(a, b) == GREATER || block_order(a, b) == EQUAL))
    } else if op == "<="@ {
        Ok(BlockView::Bool(block_order(a, b) == LESS || block_order(a, b) == EQUAL))
    } else {
        Err(eval_failure("Unsupported operator"@))
    }
}

/// What several resolved values collapse to: null for none, the value for
/// one, the list for more.
pub open spec fn collapse(vals: Seq<BlockView>) -> BlockView {
    if vals.len() == 0 {
        BlockView::Null
    } else if vals.len() == 1 {
        vals[0]
    } else {
        BlockView::List(vals)
    }
}

/// The element at the zero-based index `i` of a list, or the character at
/// index `i` of a text as a one-character text. An index past the end, and
/// any other container, is an evaluation error.
pub open spec fn pick_at(things: BlockView, i: int) -> Result<BlockView, Failure> {
    match things {
        BlockView::List(a) => if 0 <= i < a.len() {
            Ok(a[i])
        } else {
            Err(eval_failure("list index out of range"@))
        },
        BlockView::Object(TokenView::Text(t)) => if 0 <= i < t.len() {
            Ok(BlockView::Object(TokenView::Text(seq![t[i]])))
        } else {
            Err(eval_failure("text index out of range"@))
        },
        _ => Err(eval_failure("cannot index this value"@)),
    }
}

/// The index that the number `n` stands for: its integer part. A number
/// less than zero, a NaN, and a number past what the machine can hold stand
/// for no index.
pub open spec fn index_view(n: u64) -> Option<int> {
    if double_order(n, 0) == LESS || double_order(n, 0) == UNORDERED || double_index(n)
        > usize::MAX {
        None
    } else {
        Some(double_index(n) as int)
    }
}

/// The outcome of `things[idx]`: the index must be a number that stands for
/// an index ([`index_view`]).
pub open spec fn pick_index_view(idx: BlockView, things: BlockView) -> Result<
    BlockView,
    Failure,
> {
    match idx {
        BlockView::Object(TokenView::Number(n)) => match index_view(n) {
            Some(i) => pick_at(things, i),
            None => Err(eval_failure("index out of range"@)),
        },
        _ => Err(eval_failure("cannot index with this value"@)),
    }
}

/// The bindings `vars` as the outcome of a successful change.
pub open spec fn changed_to(vars: Vars) -> Change {
    Change { result: Ok(BlockView::Null), vars }
}

/// The outcome of storing `val` under the target `key`:
/// - a symbol is bound in this namespace;
/// - `name[number]` replaces an element of the list bound to `name` in this
///   namespace;
/// - `name.member` binds `member` in the module bound to `name` in this
///   namespace;
/// - any other target, a name not bound in this namespace, a value of the
///   wrong kind and an index past the end are evaluation errors.
pub open spec fn store_view(ns: NameSpaceView, key: BlockView, val: BlockView) -> Change {
    let vars = ns.module.vars;
    match key {
        BlockView::Object(TokenView::Symbol(var)) => changed_to(
            bind(vars, var, val),
        ),
        BlockView::Expr(e) => if e.elems.len() < 2 {
            Change { result: Err(eval_failure("Unsupported assignment"@)), vars }
        } else {
            match e.elems[0] {
                BlockView::Object(TokenView::Symbol(k)) => {
                    let i = index_of(vars, k, 0);
                    if i >= vars.len() {
                        Change { result: Err(eval_failure(symbol_not_in_scope(k))), vars }
                    } else {
                        match (e.op, e.elems[1], vars[i].1) {
                            (
                                BlockView::Operator(TokenView::Index),
                                BlockView::Object(TokenView::Number(n)),
                                BlockView::List(l),
                            ) => if index_view(n) is Some && index_view(n)->Some_0 < l.len() {
                                changed_to(
                                    vars.update(
                                        i,
                                        (
                                            vars[i].0,
                                            BlockView::List(l.update(index_view(n)->Some_0, val)),
                                        ),
                                    ),
                                )
                            } else {
                                Change { result: Err(eval_failure("List assignment failed"@)), vars }
                            },
                            (
                                BlockView::Operator(TokenView::Index),
                                BlockView::Object(TokenView::Number(_)),
                                _,
                            ) => Change {
                                result: Err(
                                    eval_failure(
                                        "List assignment failed List update error: Not a list"@,
                                    ),
                                ),
                                vars,
                            },
                            (
                                BlockView::Operator(TokenView::Accessor),
                                BlockView::Object(TokenView::Symbol(prop)),
                                BlockView::Mod(m),
                            ) => changed_to(
                                vars.update(
                                    i,
                                    (
                                        vars[i].0,
                                        BlockView::Mod(
                                            ModuleView {
                                                vars: bind(m.vars, prop, val),
                                                path: m.path,
                                            },
                                        ),
                                    ),
                                ),
                            ),
                            _ => Change { result: Err(eval_failure("Unsupported assignment"@)), vars },
                        }
                    }
                },
                _ => Change { result: Err(eval_failure("Unsupported assignment"@)), vars },
            }
        },
        _ => Change { result: Err(eval_failure("LHS is not a valid symbol"@)), vars },
    }
}

/// The tag that `type` gives a value.
pub open spec fn type_tag(v: BlockView) -> Seq<char> {
    match v {
        BlockView::Object(TokenView::Text(_)) => "<Text>"@,
        BlockView::Object(TokenView::Number(_)) => "<Number>"@,
        BlockView::Func(_) => "<Func>"@,
        BlockView::NativeFunc(_, _) => "<NativeFunc>"@,
        BlockView::List(_) => "<List>"@,
        BlockView::Bool(_) => "<Bool>"@,
        BlockView::Expr(_) => "<Expr>"@,
        BlockView::FuncBody(_) => "<FuncBody>"@,
        BlockView::Mod(_) => "<Module>"@,
        BlockView::Null => "<Null>"@,
        _ => "<Type Not Found>"@,
    }
}

/// The outcome of `type(args)`: the tag of its one argument, as a text.
pub open spec fn type_view(args: Seq<BlockView>) -> Result<BlockView, Failure> {
    if args.len() != 1 {
        Err(eval_failure("expected 1 argument"@))
    } else {
        Ok(BlockView::Object(TokenView::Text(type_tag(args[0]))))
    }
}

/// The outcome of `if(args)`: the second of three arguments where the first
/// is true, the third where it is false. The condition is a boolean, or a
/// list of one boolean.
pub open spec fn if_view(args: Seq<BlockView>) -> Result<BlockView, Failure> {
    if args.len() != 3 {
        Err(eval_failure("expected 3 arguments"@))
    } else {
        let condition = match args[0] {
            BlockView::Bool(b) => Some(b),
            BlockView::List(l) => if l.len() == 1 {
                match l[0] {
                    BlockView::Bool(b) => Some(b),
                    _ => None,
                }
            } else {
                None
            },
            _ => None,
        };
        match condition {
            Some(true) => Ok(args[1]),
            Some(false) => Ok(args[2]),
            None => Err(eval_failure("unsupported condition statement"@)),
        }
    }
}

/// The outcome of `len(args)`: the number of elements of a list, or the
/// number of characters of a text, as a number. A text is counted, indexed
/// and walked by its characters.
pub open spec fn len_view(args: Seq<BlockView>) -> Result<BlockView, Failure> {
    if args.len() != 1 {
        Err(eval_failure("expected 1 argument"@))
    } else {
        match args[0] {
            BlockView::List(l) => if l.len() <= usize::MAX {
                Ok(BlockView::Object(TokenView::Number(double_of_count(l.len() as usize))))
            } else {
                Err(eval_failure("len() not supported"@))
            },
            BlockView::Object(TokenView::Text(t)) => if t.len() <= usize::MAX {
                Ok(BlockView::Object(TokenView::Number(double_of_count(t.len() as usize))))
            } else {
                Err(eval_failure("len() not supported"@))
            },
            _ => Err(eval_failure("len() not supported"@)),
        }
    }
}

/// The outcome of `assert(args)`: its one argument where that is true, an
/// evaluation error otherwise.
pub open spec fn assert_view(args: Seq<BlockView>) -> Result<BlockView, Failure> {
    if args.len() != 1 {
        Err(eval_failure("expected 1 argument"@))
    } else if args[0] == BlockView::Bool(true) {
        Ok(args[0])
    } else if args[0] == BlockView::Bool(false) {
        Err(eval_failure("Assertion error"@))
    } else {
        Err(eval_failure("assert argument not supported"@))
    }
}

/// The outcome of `exit(args)`: the orderly-termination marker, or an
/// evaluation error where arguments are given.
pub open spec fn exit_view(args: Seq<BlockView>) -> Result<BlockView, Failure> {
    if args.len() != 0 {
        Err(eval_failure("expected 0 arguments"@))
    } else {
        Err(Failure { kind: ErrorKind::SysExit, message: "Exit"@ })
    }
}

/// The outcome of `vars(args)` in a module with the bindings `vars`: the
/// names bound there, or in the module given as the one argument; null for
/// an argument that is no module.
pub open spec fn vars_view(vars: Vars, args: Seq<BlockView>) -> Result<BlockView, Failure> {
    if args.len() > 1 {
        Err(eval_failure("expected 0..1 arguments"@))
    } else if args.len() == 0 {
        Ok(BlockView::List(names(vars)))
    } else {
        match args[0] {
            BlockView::Mod(m) => Ok(BlockView::List(names(m.vars))),
            _ => Ok(BlockView::Null),
        }
    }
}

/// The outcome of `spill(args)`: the bindings of the module given as the one
/// argument are bound in this namespace.
pub open spec fn spill_view(ns: NameSpaceView, args: Seq<BlockView>) -> Change {
    if args.len() != 1 {
        Change { result: Err(eval_failure("expected 1 argument"@)), vars: ns.module.vars }
    } else {
        match args[0] {
            BlockView::Mod(m) => changed_to(merge(ns.module.vars, m.vars, 0)),
            _ => Change { result: Err(eval_failure("Unsupported argument to spill"@)), vars: ns.module.vars },
        }
    }
}

/// The one-character texts of the characters of `t`.
pub open spec fn char_texts(t: Seq<char>) -> Seq<BlockView> {
    Seq::new(t.len(), |i: int| BlockView::Object(TokenView::Text(seq![t[i]])))
}

/// The arguments of a call: the elements of a list, or else the one block.
pub open spec fn actual_args(args: BlockView) -> Seq<BlockView> {
    match args {
        BlockView::List(l) => l,
        _ => seq![args],
    }
}

/// The parameters of a function: the elements of its parameter list.
pub open spec fn formal_params(args: BlockView) -> Seq<BlockView> {
    match args {
        BlockView::List(l) => l,
        _ => Seq::empty(),
    }
}

/// The outcome of resolving the block `b`:
/// - an expression is solved ([`solve_view`]);
/// - a symbol stands for the value it is bound to, and is an evaluation
///   error where it is not bound;
/// - a list stands for the list of its resolved elements;
/// - a module body is run in a namespace of its own and stands for the
///   module that results;
/// - a function body stands for null;
/// - any other block stands for itself.
pub open spec fn resolve_view(w: World, b: BlockView, depth: nat) -> Step
    decreases depth, b, 0nat,
{
    match b {
        BlockView::Expr(e) => solve_view(w, *e, depth),
        BlockView::Object(TokenView::Symbol(s)) => match w.ns.get(s) {
            Some(v) => ok(v, w),
            None => fail(eval_failure(symbol_not_found(s)), w),
        },
        BlockView::List(items) => resolve_all_view(w, items, 0, Seq::empty(), depth),
        BlockView::ModBody(body) => match run_view(
            w.child(Seq::empty(), None),
            body,
            0,
            BlockView::Null,
            depth,
        ) {
            Step::Hosted(sofar) => Step::Hosted(sofar),
            Step::Done(Ok(_), st) => Step::Done(
                Ok(BlockView::Mod(ModuleView { vars: st.vars, path: None })),
                w.after(st),
            ),
            Step::Done(Err(k), st) => Step::Done(Err(k), w.after(st)),
        },
        BlockView::FuncBody(_) => ok(BlockView::Null, w),
        _ => ok(b, w),
    }
}

/// The outcome of resolving `items` from index `i` on, from left to right,
/// each in the namespace that the one before left: the list of `acc` and
/// the values.
pub open spec fn resolve_all_view(
    w: World,
    items: Seq<BlockView>,
    i: int,
    acc: Seq<BlockView>,
    depth: nat,
) -> Step
    decreases depth, items, items.len() - i,
{
    if i < 0 || i >= items.len() {
        ok(BlockView::List(acc), w)
    } else {
        match resolve_view(w, items[i], depth) {
            Step::Hosted(sofar) => Step::Hosted(sofar),
            Step::Done(Err(k), vars) => Step::Done(Err(k), vars),
            Step::Done(Ok(v), vars) => resolve_all_view(
                w.with(vars),
                items,
                i + 1,
                acc.push(v),
                depth,
            ),
        }
    }
}

/// The outcome of running the statements `body` from index `i` on, `last`
/// being the value of the statement before: the value of the last
/// statement. A return statement ends the run with its value, and is an
/// evaluation error in a namespace with none around it.
pub open spec fn run_view(
    w: World,
    body: Seq<ExpressionView>,
    i: int,
    last: BlockView,
    depth: nat,
) -> Step
    decreases depth, body, body.len() - i,
{
    if i < 0 || i >= body.len() {
        ok(last, w)
    } else {
        match solve_view(w, body[i], depth) {
            Step::Hosted(sofar) => Step::Hosted(sofar),
            Step::Done(Err(k), vars) => Step::Done(Err(k), vars),
            Step::Done(Ok(v), vars) => if body[i].op == BlockView::Operator(TokenView::FuncReturn) {
                if w.ns.parent is None {
                    Step::Done(Err(eval_failure("cannot use return here!"@)), vars)
                } else {
                    Step::Done(Ok(v), vars)
                }
            } else {
                run_view(w.with(vars), body, i + 1, v, depth)
            },
        }
    }
}

/// The outcome of the assignment of `value` to the target `key`: the value
/// is resolved, then stored ([`store_view`]).
pub open spec fn assign_view(w: World, key: BlockView, value: BlockView, depth: nat) -> Step
    decreases depth, value, 1nat,
{
    match resolve_view(w, value, depth) {
        Step::Hosted(sofar) => Step::Hosted(sofar),
        Step::Done(Err(k), vars) => Step::Done(Err(k), vars),
        Step::Done(Ok(val), vars) => w.with(vars).changed(store_view(w.with(vars).ns, key, val)),
    }
}

/// The outcome of folding the arithmetic operator `op` over the operands
/// `elems` from index `i` on, `acc` being the fold of those before.
pub open spec fn arith_view(
    w: World,
    op: char,
    elems: Seq<BlockView>,
    i: int,
    acc: Option<u64>,
    depth: nat,
) -> Step
    decreases depth, elems, elems.len() - i,
{
    if i < 0 || i >= elems.len() {
        match acc {
            Some(n) => ok(BlockView::Object(TokenView::Number(n)), w),
            None => fail(eval_failure("Arith error"@), w),
        }
    } else {
        match resolve_view(w, elems[i], depth) {
            Step::Hosted(sofar) => Step::Hosted(sofar),
            Step::Done(Err(k), vars) => Step::Done(Err(k), vars),
            Step::Done(Ok(v), vars) => match number_of(v) {
                Some(n) => arith_view(
                    w.with(vars),
                    op,
                    elems,
                    i + 1,
                    Some(fold_number(acc, op, n)),
                    depth,
                ),
                None => Step::Done(Err(eval_failure("Cannot perform Arith on this value"@)), vars),
            },
        }
    }
}

/// The outcome of solving the expression `e`, by its operator:
/// - assignment: [`assign_view`], and null;
/// - arithmetic: the left fold over the two operands ([`arith_view`]);
/// - comparison: both operands resolved, then compared
///   ([`compare_values`]);
/// - call: the callee is a symbol that is looked up, a function, or an
///   expression that is solved first; then [`call_view`]. Any other callee
///   gives null;
/// - return and list: the operands resolved and collapsed ([`collapse`]);
/// - index: container and index resolved, then [`pick_index_view`];
/// - accessor: the left operand must resolve to a module; a symbol on the
///   right is looked up in it, an expression other than an assignment is
///   solved in a namespace made of that module;
/// - no operator: the block the expression collapses to.
/// An operator with the wrong number of operands is an evaluation error.
pub open spec fn solve_view(w: World, e: ExpressionView, depth: nat) -> Step
    decreases depth, e, 1nat,
{
    match e.op {
        BlockView::Operator(TokenView::Assign) => if e.elems.len() != 2 {
            fail(eval_failure("Illegal assignment"@), w)
        } else {
            assign_view(w, e.elems[0], e.elems[1], depth)
        },
        BlockView::Operator(TokenView::Arith(op)) => if e.elems.len() != 2 {
            fail(eval_failure("Illegal arithmetic operation"@), w)
        } else {
            arith_view(w, op, e.elems, 0, None, depth)
        },
        BlockView::Operator(TokenView::Comparison(op)) => if e.elems.len() != 2 {
            fail(eval_failure("Illegal comparison operation"@), w)
        } else {
            match resolve_all_view(w, e.elems, 0, Seq::empty(), depth) {
                Step::Done(Ok(BlockView::List(vals)), vars) => if vals.len() == 2 {
                    Step::Done(compare_values(op, vals[0], vals[1]), vars)
                } else {
                    Step::Done(Err(eval_failure("Illegal comparison operation"@)), vars)
                },
                other => other,
            }
        },
        BlockView::Operator(TokenView::FuncCall) => solve_call_view(w, e, depth),
        BlockView::Operator(TokenView::FuncReturn) | BlockView::Operator(TokenView::List) => {
            match resolve_all_view(w, e.elems, 0, Seq::empty(), depth) {
                Step::Done(Ok(BlockView::List(vals)), vars) => Step::Done(Ok(collapse(vals)), vars),
                other => other,
            }
        },
        BlockView::Operator(TokenView::Index) => if e.elems.len() != 2 {
            fail(eval_failure("Illegal index operation"@), w)
        } else {
            match resolve_view(w, e.elems[0], depth) {
                Step::Hosted(sofar) => Step::Hosted(sofar),
                Step::Done(Err(k), vars) => Step::Done(Err(k), vars),
                Step::Done(Ok(val), vars) => match resolve_view(
                    w.with(vars),
                    e.elems[1],
                    depth,
                ) {
                    Step::Hosted(sofar) => Step::Hosted(sofar),
                    Step::Done(Err(k), vars2) => Step::Done(Err(k), vars2),
                    Step::Done(Ok(idx), vars2) => Step::Done(pick_index_view(idx, val), vars2),
                },
            }
        },
        BlockView::Operator(TokenView::Accessor) => solve_access_view(w, e, depth),
        _ => match to_block_view(e) {
            Ok(b) => ok(b, w),
            Err(m) => fail(Failure { kind: ErrorKind::Parser, message: m }, w),
        },
    }
}

/// The outcome of solving the call expression `e`.
pub open spec fn solve_call_view(w: World, e: ExpressionView, depth: nat) -> Step
    decreases depth, e, 0nat,
{
    if e.elems.len() == 0 {
        fail(eval_failure("Illegal function call"@), w)
    } else {
        match e.elems[0] {
            BlockView::Object(TokenView::Symbol(name)) => if e.elems.len() < 2 {
                fail(eval_failure("Illegal function call"@), w)
            } else {
                call_named_view(w, name, e.elems[1], depth)
            },
            BlockView::Func(_) => if e.elems.len() < 2 {
                fail(eval_failure("Illegal function call"@), w)
            } else {
                call_view(w, e.elems[0], e.elems[1], depth, None)
            },
            BlockView::Expr(x) => if e.elems.len() < 2 {
                fail(eval_failure("Illegal function call"@), w)
            } else {
                match solve_view(w, *x, depth) {
                    Step::Hosted(sofar) => Step::Hosted(sofar),
                    Step::Done(Err(k), vars) => Step::Done(Err(k), vars),
                    Step::Done(Ok(func), vars) => call_view(
                        w.with(vars),
                        func,
                        e.elems[1],
                        depth,
                        None,
                    ),
                }
            },
            _ => ok(BlockView::Null, w),
        }
    }
}

/// The outcome of solving the accessor expression `e`.
pub open spec fn solve_access_view(w: World, e: ExpressionView, depth: nat) -> Step
    decreases depth, e, 0nat,
{
    if e.elems.len() != 2 {
        fail(eval_failure("Illegal access operation"@), w)
    } else {
        match resolve_view(w, e.elems[0], depth) {
            Step::Hosted(sofar) => Step::Hosted(sofar),
            Step::Done(Err(k), vars) => Step::Done(Err(k), vars),
            Step::Done(Ok(BlockView::Mod(m)), vars) => match e.elems[1] {
                BlockView::Object(TokenView::Symbol(s)) => match lookup(m.vars, s) {
                    Some(v) => Step::Done(Ok(v), vars),
                    None => Step::Done(Err(eval_failure("member not found"@)), vars),
                },
                BlockView::Expr(x) => if x.op == BlockView::Operator(TokenView::Assign) {
                    Step::Done(Err(eval_failure("cannot assign into module"@)), vars)
                } else {
                    let inside = World {
                        ns: NameSpaceView {
                            module: m,
                            builtins: None,
                            parent: Some(Box::new(w.with(vars).ns)),
                        },
                        written: vars.written,
                    };
                    match solve_view(inside, *x, depth) {
                        Step::Hosted(sofar) => Step::Hosted(sofar),
                        Step::Done(r, st) => Step::Done(r, w.with(vars).after(st)),
                    }
                },
                _ => Step::Done(Err(eval_failure("invalid use of '.' accessor"@)), vars),
            },
            Step::Done(Ok(_), vars) => Step::Done(Err(eval_failure("invalid use of '.' accessor"@)), vars),
        }
    }
}

/// The outcome of calling what `name` is bound to; an unbound name is an
/// evaluation error.
pub open spec fn call_named_view(w: World, name: Seq<char>, args: BlockView, depth: nat) -> Step
    decreases depth, args, 2nat,
{
    match w.ns.get(name) {
        Some(func) => call_view(w, func, args, depth, Some(name)),
        None => fail(eval_failure(function_not_defined(name)), w),
    }
}

/// The outcome of calling `func`, which goes by the name `called` if it has
/// one, on `args`. At depth zero the call is an evaluation error; otherwise
/// it goes on one level below:
/// - a function of the language: as many arguments as parameters, each
///   assigned to its parameter in a new namespace inside this one, in which
///   the body then runs;
/// - a native function: the arguments are resolved in this namespace and
///   handed to it ([`native_view`]);
/// - anything else is an evaluation error.
pub open spec fn call_view(
    w: World,
    func: BlockView,
    args: BlockView,
    depth: nat,
    called: Option<Seq<char>>,
) -> Step
    decreases depth, args, 1nat,
{
    if depth == 0 {
        fail(eval_failure("call depth exhausted"@), w)
    } else {
        let below = (depth - 1) as nat;
        let actual = actual_args(args);
        match func {
            BlockView::Func(f) => apply_view(w, *f, args, depth, called),
            BlockView::NativeFunc(name, origin) => match resolve_all_view(
                w,
                actual,
                0,
                Seq::empty(),
                below,
            ) {
                Step::Done(Ok(BlockView::List(clean)), vars) => native_view(
                    w.with(vars),
                    name,
                    origin,
                    clean,
                    below,
                ),
                other => other,
            },
            _ => fail(eval_failure(definition_error(callee(called))), w),
        }
    }
}

/// The outcome of applying the function `f`, which goes by the name
/// `called` if it has one, to the arguments `args`, one level below `depth`: as many arguments as parameters, each assigned to
/// its parameter in a new namespace inside this one, in which the body then
/// runs. The bindings of this namespace stay as they are; what the call
/// wrote stays written.
pub open spec fn apply_view(
    w: World,
    f: FuncDefView,
    args: BlockView,
    depth: nat,
    called: Option<Seq<char>>,
) -> Step
    decreases depth, args, 0nat,
{
    if depth == 0 {
        fail(eval_failure("call depth exhausted"@), w)
    } else {
        let below = (depth - 1) as nat;
        let actual = actual_args(args);
        let params = formal_params(f.args);
        if params.len() != actual.len() {
            fail(eval_failure(arguments_mismatch(callee(called))), w)
        } else {
            let frame = w.child(Seq::empty(), None);
            match bind_params_view(frame, params, actual, 0, below) {
                Step::Hosted(sofar) => Step::Hosted(sofar),
                Step::Done(Err(k), st) => Step::Done(Err(k), w.after(st)),
                Step::Done(Ok(_), st) => match f.body {
                    BlockView::FuncBody(body) => match run_view(
                        frame.with(st),
                        body,
                        0,
                        BlockView::Null,
                        below,
                    ) {
                        Step::Hosted(sofar) => Step::Hosted(sofar),
                        Step::Done(r, st2) => Step::Done(r, w.after(st2)),
                    },
                    _ => Step::Done(Err(eval_failure(definition_error(callee(called)))), w.after(st)),
                },
            }
        }
    }
}

/// The outcome of assigning the arguments from index `i` on to their
/// parameters in the world `frame` of a call.
pub open spec fn bind_params_view(
    frame: World,
    params: Seq<BlockView>,
    actual: Seq<BlockView>,
    i: int,
    depth: nat,
) -> Step
    decreases depth, actual, actual.len() - i + 2,
{
    if i < 0 || i >= actual.len() || i >= params.len() {
        ok(BlockView::Null, frame)
    } else {
        match assign_view(frame, params[i], actual[i], depth) {
            Step::Hosted(sofar) => Step::Hosted(sofar),
            Step::Done(Err(k), st) => Step::Done(Err(k), st),
            Step::Done(Ok(_), st) => bind_params_view(frame.with(st), params, actual, i + 1, depth),
        }
    }
}

/// The outcome of the native function `name` of the library `origin` on the
/// resolved arguments `args`. The functions built into the interpreter are
/// those of the empty origin: `print` writes the text of its arguments
/// ([`print_pieces`]) and gives null, the others are told by the functions of
/// this module that are named after them. `import`, `import_native` and
/// every function of a library are the host's to answer.
pub open spec fn native_view(
    w: World,
    name: Seq<char>,
    origin: Seq<char>,
    args: Seq<BlockView>,
    depth: nat,
) -> Step
    decreases depth, args, 1nat,
{
    if origin.len() != 0 {
        Step::Hosted(w.written)
    } else if name == "print"@ {
        Step::Done(
            Ok(BlockView::Null),
            State { vars: w.ns.module.vars, written: w.written + print_pieces(args) },
        )
    } else if name == "type"@ {
        w.unchanged(type_view(args))
    } else if name == "if"@ {
        w.unchanged(if_view(args))
    } else if name == "len"@ {
        w.unchanged(len_view(args))
    } else if name == "foreach"@ {
        foreach_view(w, args, depth)
    } else if name == "vars"@ {
        w.unchanged(vars_view(w.ns.module.vars, args))
    } else if name == "import"@ || name == "import_native"@ {
        if args.len() != 1 {
            fail(eval_failure("expected 1 argument"@), w)
        } else if args[0] is Object && args[0]->Object_0 is Text {
            Step::Hosted(w.written)
        } else {
            ok(BlockView::Null, w)
        }
    } else if name == "spill"@ {
        w.changed(spill_view(w.ns, args))
    } else if name == "assert"@ {
        w.unchanged(assert_view(args))
    } else if name == "exit"@ {
        w.unchanged(exit_view(args))
    } else {
        Step::Hosted(w.written)
    }
}

/// The outcome of `foreach(args)`: the function given second is called on
/// each element of the list, or on each character of the text, given first;
/// the values make a list.
pub open spec fn foreach_view(w: World, args: Seq<BlockView>, depth: nat) -> Step
    decreases depth, args, 0nat,
{
    if args.len() != 2 {
        fail(eval_failure("expected 2 arguments"@), w)
    } else if !(args[1] is Func || args[1] is NativeFunc) {
        fail(eval_failure("second argument should be a function"@), w)
    } else if depth == 0 {
        fail(eval_failure("call depth exhausted"@), w)
    } else {
        match args[0] {
            BlockView::List(l) => map_view(w, args[1], l, 0, Seq::empty(), (depth - 1) as nat),
            BlockView::Object(TokenView::Text(t)) => map_view(
                w,
                args[1],
                char_texts(t),
                0,
                Seq::empty(),
                (depth - 1) as nat,
            ),
            _ => fail(eval_failure("iteration not supported"@), w),
        }
    }
}

/// The outcome of calling `func` on each of `items` from index `i` on: the
/// list of `acc` and the values.
pub open spec fn map_view(
    w: World,
    func: BlockView,
    items: Seq<BlockView>,
    i: int,
    acc: Seq<BlockView>,
    depth: nat,
) -> Step
    decreases depth, items, items.len() - i + 2,
{
    if i < 0 || i >= items.len() {
        ok(BlockView::List(acc), w)
    } else {
        match call_view(w, func, items[i], depth, None) {
            Step::Hosted(sofar) => Step::Hosted(sofar),
            Step::Done(Err(k), vars) => Step::Done(Err(k), vars),
            Step::Done(Ok(v), vars) => map_view(
                w.with(vars),
                func,
                items,
                i + 1,
                acc.push(v),
                depth,
            ),
        }
    }
}

} // verus!
