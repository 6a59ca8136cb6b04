//! The syntax tree: blocks, expressions, function definitions and modules,
//! each with its mathematical view.

use crate::token::{Token, TokenView};
use vstd::prelude::*;

verus! {

/// A node of the syntax tree, and at the same time a value of the language.
#[derive(Debug)]
pub enum Block {
    Null,
    Bool(bool),
    Object(Token),
    Operator(Token),
    Scope(char),
    Expr(Box<Expression>),
    List(Vec<Block>),
    Func(Box<FuncDef>),
    FuncBody(Vec<Expression>),
    NativeFunc(NativeFuncDef),
    Mod(Module),
    ModBody(Vec<Expression>),
}

/// An operator with its operands. `op` is `Null` or an `Operator`.
#[derive(Debug)]
pub struct Expression {
    pub op: Block,
    pub elems: Vec<Block>,
}

/// A function written in the language: its parameter list and its body.
#[derive(Debug)]
pub struct FuncDef {
    pub args: Block,
    pub body: Block,
}

/// A function that the host provides, known by its name and by the library
/// it came from (empty for the functions built into the interpreter).
#[derive(Debug)]
pub struct NativeFuncDef {
    pub name: String,
    pub origin: String,
}

/// One name bound to one value.
#[derive(Debug)]
pub struct Binding {
    pub name: String,
    pub value: Block,
}

/// The bindings of a module, in the order in which their names were first
/// bound. No name is bound twice.
#[derive(Debug)]
pub struct ModuleVars {
    entries: Vec<Binding>,
}

/// A module: its bindings and the path of the file it was read from.
#[derive(Debug)]
pub struct Module {
    pub vars: ModuleVars,
    pub path: Option<String>,
}

/// The view of a [`Block`].
pub enum BlockView {
    Null,
    Bool(bool),
    Object(TokenView),
    Operator(TokenView),
    Scope(char),
    Expr(Box<ExpressionView>),
    List(Seq<BlockView>),
    Func(Box<FuncDefView>),
    FuncBody(Seq<ExpressionView>),
    NativeFunc(Seq<char>, Seq<char>),
    Mod(ModuleView),
    ModBody(Seq<ExpressionView>),
}

/// The view of an [`Expression`].
pub struct ExpressionView {
    pub op: BlockView,
    pub elems: Seq<BlockView>,
}

/// The view of a [`FuncDef`].
pub struct FuncDefView {
    pub args: BlockView,
    pub body: BlockView,
}

/// The view of a [`Module`]: its bindings as pairs of name and value, and its
/// path.
pub struct ModuleView {
    pub vars: Seq<(Seq<char>, BlockView)>,
    pub path: Option<Seq<char>>,
}

/// The view of a block.
pub open spec fn block_view(b: Block) -> BlockView
    decreases b,
{
    match b {
        Block::Null => BlockView::Null,
        Block::Bool(v) => BlockView::Bool(v),
        Block::Object(t) => BlockView::Object(t@),
        Block::Operator(t) => BlockView::Operator(t@),
        Block::Scope(c) => BlockView::Scope(c),
        Block::Expr(e) => BlockView::Expr(Box::new(expression_view(*e))),
        Block::List(l) => BlockView::List(blocks_view(l@)),
        Block::Func(f) => BlockView::Func(
            Box::new(FuncDefView { args: block_view(f.args), body: block_view(f.body) }),
        ),
        Block::FuncBody(l) => BlockView::FuncBody(expressions_view(l@)),
        Block::NativeFunc(f) => BlockView::NativeFunc(f.name@, f.origin@),
        Block::Mod(m) => BlockView::Mod(
            ModuleView { vars: module_vars_view(m.vars), path: option_text(m.path) },
        ),
        Block::ModBody(l) => BlockView::ModBody(expressions_view(l@)),
    }
}

/// The views of a sequence of blocks.
pub open spec fn blocks_view(s: Seq<Block>) -> Seq<BlockView>
    decreases s,
{
    Seq::new(
        s.len(),
        |i: int|
            if 0 <= i < s.len() {
                block_view(s[i])
            } else {
                BlockView::Null
            },
    )
}

/// The view of an expression.
pub open spec fn expression_view(e: Expression) -> ExpressionView
    decreases e,
{
    ExpressionView { op: block_view(e.op), elems: blocks_view(e.elems@) }
}

/// The views of a sequence of expressions.
pub open spec fn expressions_view(s: Seq<Expression>) -> Seq<ExpressionView>
    decreases s,
{
    Seq::new(
        s.len(),
        |i: int|
            if 0 <= i < s.len() {
                expression_view(s[i])
            } else {
                ExpressionView { op: BlockView::Null, elems: Seq::empty() }
            },
    )
}

/// The view of the bindings of a module: each name with the view of its
/// value, in order.
pub closed spec fn module_vars_view(v: ModuleVars) -> Seq<(Seq<char>, BlockView)>
    decreases v,
{
    bindings_view(v.entries@)
}

/// The views of a sequence of bindings.
pub open spec fn bindings_view(s: Seq<Binding>) -> Seq<(Seq<char>, BlockView)>
    decreases s,
{
    Seq::new(
        s.len(),
        |i: int|
            if 0 <= i < s.len() {
                (s[i].name@, block_view(s[i].value))
            } else {
                (Seq::empty(), BlockView::Null)
            },
    )
}

/// The characters of an optional string.
pub open spec fn option_text(s: Option<String>) -> Option<Seq<char>> {
    match s {
        Some(t) => Some(t@),
        None => None,
    }
}

impl View for Block {
    type V = BlockView;

    open spec fn view(&self) -> BlockView {
        block_view(*self)
    }
}

impl View for Expression {
    type V = ExpressionView;

    open spec fn view(&self) -> ExpressionView {
        expression_view(*self)
    }
}

impl View for FuncDef {
    type V = FuncDefView;

    open spec fn view(&self) -> FuncDefView {
        FuncDefView { args: block_view(self.args), body: block_view(self.body) }
    }
}

impl View for ModuleVars {
    type V = Seq<(Seq<char>, BlockView)>;

    open spec fn view(&self) -> Seq<(Seq<char>, BlockView)> {
        module_vars_view(*self)
    }
}

impl View for Module {
    type V = ModuleView;

    open spec fn view(&self) -> ModuleView {
        ModuleView { vars: module_vars_view(self.vars), path: option_text(self.path) }
    }
}

/// The view of a vector of blocks holds the view of each block.
pub proof fn lemma_blocks_view(s: Seq<Block>)
    ensures
        blocks_view(s).len() == s.len(),
        forall|i: int| 0 <= i < s.len() ==> #[trigger] blocks_view(s)[i] == block_view(s[i]),
{
}

/// A string with the same characters as an optional string, if there is one.
pub fn copy_option_text(s: &Option<String>) -> (r: Option<String>)
    ensures
        option_text(r) == option_text(*s),
{
    match s {
        Some(t) => Some(t.clone()),
        None => None,
    }
}

impl Block {
    /// A block with the same view.
    pub fn copy(&self) -> (r: Block)
        ensures
            r@ == self@,
        decreases *self,
    {
        match self {
            Block::Null => Block::Null,
            Block::Bool(v) => Block::Bool(*v),
            Block::Object(t) => Block::Object(t.copy()),
            Block::Operator(t) => Block::Operator(t.copy()),
            Block::Scope(c) => Block::Scope(*c),
            Block::Expr(e) => Block::Expr(Box::new(e.copy())),
            Block::List(l) => Block::List(copy_blocks(l)),
            Block::Func(f) => Block::Func(
                Box::new(FuncDef { args: f.args.copy(), body: f.body.copy() }),
            ),
            Block::FuncBody(l) => Block::FuncBody(copy_expressions(l)),
            Block::NativeFunc(f) => Block::NativeFunc(
                NativeFuncDef { name: f.name.clone(), origin: f.origin.clone() },
            ),
            Block::Mod(m) => Block::Mod(m.copy()),
            Block::ModBody(l) => Block::ModBody(copy_expressions(l)),
        }
    }
}

impl Expression {
    /// An expression with the same view.
    pub fn copy(&self) -> (r: Expression)
        ensures
            r@ == self@,
        decreases *self,
    {
        Expression { op: self.op.copy(), elems: copy_blocks(&self.elems) }
    }
}

/// Blocks with the same views as those of `l`.
pub fn copy_blocks(l: &Vec<Block>) -> (out: Vec<Block>)
    ensures
        blocks_view(out@) == blocks_view(l@),
    decreases *l,
{
    let mut out: Vec<Block> = Vec::new();
    let mut i: usize = 0;
    while i < l.len()
        invariant
            i <= l.len(),
            out@.len() == i,
            forall|j: int| 0 <= j < i ==> block_view(out@[j]) == block_view(l@[j]),
        decreases l.len() - i,
    {
        out.push(l[i].copy());
        i += 1;
    }
    out
}

/// Expressions with the same views as those of `l`.
pub fn copy_expressions(l: &Vec<Expression>) -> (out: Vec<Expression>)
    ensures
        expressions_view(out@) == expressions_view(l@),
    decreases *l,
{
    let mut out: Vec<Expression> = Vec::new();
    let mut i: usize = 0;
    while i < l.len()
        invariant
            i <= l.len(),
            out@.len() == i,
            forall|j: int| 0 <= j < i ==> expression_view(out@[j]) == expression_view(l@[j]),
        decreases l.len() - i,
    {
        out.push(l[i].copy());
        i += 1;
    }
    out
}

/// Bindings with the same views as those of `l`.
pub fn copy_bindings(l: &Vec<Binding>) -> (out: Vec<Binding>)
    ensures
        bindings_view(out@) == bindings_view(l@),
    decreases *l,
{
    let mut out: Vec<Binding> = Vec::new();
    let mut i: usize = 0;
    while i < l.len()
        invariant
            i <= l.len(),
            out@.len() == i,
            forall|j: int|
                0 <= j < i ==> out@[j].name@ == l@[j].name@ && block_view(out@[j].value)
                    == block_view(l@[j].value),
        decreases l.len() - i,
    {
        out.push(Binding { name: l[i].name.clone(), value: l[i].value.copy() });
        i += 1;
    }
    out
}

impl Clone for Block {
    fn clone(&self) -> (r: Block)
        ensures
            r@ == self@,
    {
        self.copy()
    }
}

impl Clone for Expression {
    fn clone(&self) -> (r: Expression)
        ensures
            r@ == self@,
    {
        self.copy()
    }
}

impl Clone for Module {
    fn clone(&self) -> (r: Module)
        ensures
            r@ == self@,
    {
        self.copy()
    }
}

impl Module {
    /// A module with the same view.
    pub fn copy(&self) -> (r: Module)
        ensures
            r@ == self@,
        decreases *self,
    {
        proof {
            use_type_invariant(&self.vars);
        }
        Module {
            vars: ModuleVars { entries: copy_bindings(&self.vars.entries) },
            path: copy_option_text(&self.path),
        }
    }
}


/// The bindings of a module, as pairs of name and value.
pub type Vars = Seq<(Seq<char>, BlockView)>;

/// The first index from `from` on at which `key` is bound, or the length of
/// `vars` where it is not bound.
pub open spec fn index_of(vars: Vars, key: Seq<char>, from: int) -> int
    decreases vars.len() - from,
{
    if from < 0 || from >= vars.len() {
        vars.len() as int
    } else if vars[from].0 == key {
        from
    } else {
        index_of(vars, key, from + 1)
    }
}

/// The value that `key` is bound to, if it is bound.
pub open spec fn lookup(vars: Vars, key: Seq<char>) -> Option<BlockView> {
    let i = index_of(vars, key, 0);
    if i < vars.len() {
        Some(vars[i].1)
    } else {
        None
    }
}

/// `vars` with `key` bound to `value`: in the place of its first binding,
/// or at the end where it was not bound.
pub open spec fn bind(vars: Vars, key: Seq<char>, value: BlockView) -> Vars {
    let i = index_of(vars, key, 0);
    if i < vars.len() {
        vars.update(i, (key, value))
    } else {
        vars.push((key, value))
    }
}

/// `vars` with the bindings of `other` from index `from` on bound one after
/// the other.
pub open spec fn merge(vars: Vars, other: Vars, from: int) -> Vars
    decreases other.len() - from,
{
    if from < 0 || from >= other.len() {
        vars
    } else {
        merge(bind(vars, other[from].0, other[from].1), other, from + 1)
    }
}

/// The names bound in `vars`, each as a text, in order.
pub open spec fn names(vars: Vars) -> Seq<BlockView> {
    Seq::new(vars.len(), |i: int| BlockView::Object(TokenView::Text(vars[i].0)))
}

/// The index of a key lies between the start and the length, and where it
/// is less than the length, it holds the key.
pub proof fn lemma_index_of(vars: Vars, key: Seq<char>, from: int)
    requires
        0 <= from <= vars.len(),
    ensures
        from <= index_of(vars, key, from) <= vars.len(),
        index_of(vars, key, from) < vars.len() ==> vars[index_of(vars, key, from)].0 == key,
        forall|k: int| from <= k < index_of(vars, key, from) ==> (#[trigger] vars[k]).0 != key,
    decreases vars.len() - from,
{
    if from < vars.len() && vars[from].0 != key {
        lemma_index_of(vars, key, from + 1);
    }
}

/// The index of a key is the first position from the start that holds it.
pub proof fn lemma_index_of_is(vars: Vars, key: Seq<char>, from: int, at: int)
    requires
        0 <= from <= at <= vars.len(),
        forall|k: int| from <= k < at ==> (#[trigger] vars[k]).0 != key,
        at < vars.len() ==> vars[at].0 == key,
    ensures
        index_of(vars, key, from) == at,
    decreases at - from,
{
    if from < at {
        lemma_index_of_is(vars, key, from + 1, at);
    }
}

/// After binding a key, the key is bound to the value.
pub proof fn lemma_bind_binds(vars: Vars, key: Seq<char>, value: BlockView)
    ensures
        lookup(bind(vars, key, value), key) == Some(value),
{
    lemma_index_of(vars, key, 0);
    let i = index_of(vars, key, 0);
    let after = bind(vars, key, value);
    lemma_index_of_is(after, key, 0, i);
}

/// Binding a key leaves every key that was bound, bound.
pub proof fn lemma_bind_keeps(vars: Vars, key: Seq<char>, value: BlockView, other: Seq<char>)
    requires
        lookup(vars, other) is Some,
    ensures
        lookup(bind(vars, key, value), other) is Some,
{
    if other == key {
        lemma_bind_binds(vars, key, value);
    } else {
        lemma_index_of(vars, key, 0);
        lemma_index_of(vars, other, 0);
        let j = index_of(vars, other, 0);
        let after = bind(vars, key, value);
        assert forall|k: int| 0 <= k < j implies (#[trigger] after[k]).0 != other by {}
        lemma_index_of_is(after, other, 0, j);
    }
}

/// Whether no name is bound twice in `vars`.
pub open spec fn distinct_names(vars: Vars) -> bool {
    forall|i: int, j: int| 0 <= i < j < vars.len() ==> (#[trigger] vars[i]).0 != (#[trigger] vars[j]).0
}

/// Replacing the value of a binding binds no name twice.
pub proof fn lemma_update_distinct(vars: Vars, i: int, value: BlockView)
    requires
        distinct_names(vars),
        0 <= i < vars.len(),
    ensures
        distinct_names(vars.update(i, (vars[i].0, value))),
{
    let after = vars.update(i, (vars[i].0, value));
    assert forall|a: int, b: int| 0 <= a < b < after.len() implies (#[trigger] after[a]).0 != (
    #[trigger] after[b]).0 by {
        assert(vars[a].0 != vars[b].0);
    }
}

/// Binding a name binds no name twice.
pub proof fn lemma_bind_distinct(vars: Vars, key: Seq<char>, value: BlockView)
    requires
        distinct_names(vars),
    ensures
        distinct_names(bind(vars, key, value)),
{
    lemma_index_of(vars, key, 0);
    let after = bind(vars, key, value);
    assert forall|i: int, j: int| 0 <= i < j < after.len() implies (#[trigger] after[i]).0 != (
    #[trigger] after[j]).0 by {
        if j < vars.len() {
            assert(vars[i].0 != vars[j].0);
        } else {
            assert(vars[i].0 != key);
        }
    }
}

/// Merging binds no name twice.
pub proof fn lemma_merge_distinct(vars: Vars, other: Vars, from: int)
    requires
        0 <= from <= other.len(),
        distinct_names(vars),
    ensures
        distinct_names(merge(vars, other, from)),
    decreases other.len() - from,
{
    if from < other.len() {
        lemma_bind_distinct(vars, other[from].0, other[from].1);
        lemma_merge_distinct(bind(vars, other[from].0, other[from].1), other, from + 1);
    }
}

impl ModuleVars {
    #[verifier::type_invariant]
    spec fn no_name_twice(&self) -> bool {
        distinct_names(bindings_view(self.entries@))
    }

    /// The bindings themselves, in order. No name is bound twice.
    pub fn bindings(&self) -> (r: &Vec<Binding>)
        ensures
            bindings_view(r@) == self@,
            distinct_names(self@),
            decreases_to!(*self => *r),
    {
        proof {
            use_type_invariant(self);
        }
        &self.entries
    }

    /// No bindings.
    pub fn new() -> (v: ModuleVars)
        ensures
            v@ == Seq::<(Seq<char>, BlockView)>::empty(),
    {
        let v = ModuleVars { entries: Vec::new() };
        v
    }

    /// How many names are bound.
    pub fn len(&self) -> (n: usize)
        ensures
            n == self@.len(),
    {
        self.entries.len()
    }

    /// The index of the first binding of `key`, if it is bound.
    pub fn find(&self, key: &String) -> (r: Option<usize>)
        ensures
            match r {
                Some(i) => i == index_of(self@, key@, 0) && i < self@.len(),
                None => index_of(self@, key@, 0) == self@.len(),
            },
    {
        let mut i: usize = 0;
        while i < self.entries.len()
            invariant
                i <= self.entries@.len(),
                index_of(self@, key@, i as int) == index_of(self@, key@, 0),
            decreases self.entries@.len() - i,
        {
            if self.entries[i].name == *key {
                return Some(i);
            }
            i += 1;
        }
        None
    }

    /// The value that `key` is bound to, if it is bound.
    pub fn get(&self, key: &String) -> (r: Option<&Block>)
        ensures
            match r {
                Some(b) => lookup(self@, key@) == Some(b@),
                None => lookup(self@, key@) is None,
            },
    {
        match self.find(key) {
            Some(i) => Some(&self.entries[i].value),
            None => None,
        }
    }

    /// Binds `key` to `value`: see [`bind`].
    pub fn insert(&mut self, key: String, value: Block)
        ensures
            final(self)@ == bind(old(self)@, key@, value@),
    {
        proof {
            use_type_invariant(&*self);
            lemma_bind_distinct(self@, key@, value@);
        }
        let found = self.find(&key);
        let mut entries: Vec<Binding> = Vec::new();
        std::mem::swap(&mut entries, &mut self.entries);
        match found {
            Some(i) => {
                entries[i] = Binding { name: key, value };
            },
            None => {
                entries.push(Binding { name: key, value });
            },
        }
        assert(bindings_view(entries@) =~= bind(old(self)@, key@, value@));
        self.entries = entries;
    }

    /// Binds every name of `other` to a copy of its value there: see
    /// [`merge`].
    pub fn extend(&mut self, other: &ModuleVars)
        ensures
            final(self)@ == merge(old(self)@, other@, 0),
    {
        let mut i: usize = 0;
        while i < other.entries.len()
            invariant
                i <= other.entries@.len(),
                merge(self@, other@, i as int) == merge(old(self)@, other@, 0),
            decreases other.entries@.len() - i,
        {
            self.insert(other.entries[i].name.clone(), other.entries[i].value.copy());
            i += 1;
        }
    }

    /// Replaces the element at index `idx` of the list bound at position
    /// `i`. Returns whether it did: a position past the last binding, a
    /// value that is no list, and an index past its end, leave the bindings
    /// as they were.
    pub fn set_item(&mut self, i: usize, idx: u64, val: Block) -> (done: bool)
        ensures
            if i < old(self)@.len() {
                match old(self)@[i as int].1 {
                    BlockView::List(l) => if idx < l.len() {
                        done && final(self)@ == old(self)@.update(
                            i as int,
                            (old(self)@[i as int].0, BlockView::List(l.update(idx as int, val@))),
                        )
                    } else {
                        !done && final(self)@ == old(self)@
                    },
                    _ => !done && final(self)@ == old(self)@,
                }
            } else {
                !done && final(self)@ == old(self)@
            },
    {
        if i >= self.entries.len() {
            return false;
        }
        proof {
            use_type_invariant(&*self);
        }
        let mut entries: Vec<Binding> = Vec::new();
        std::mem::swap(&mut entries, &mut self.entries);
        let Binding { name, value } = entries.remove(i);
        let mut value = value;
        let fits = match &value {
            Block::List(l) => {
                proof {
                    lemma_blocks_view(l@);
                }
                idx < l.len() as u64
            },
            _ => false,
        };
        let done = if fits {
            value.update_list(idx as usize, val).is_ok()
        } else {
            false
        };
        entries.insert(i, Binding { name, value });
        proof {
            lemma_update_distinct(bindings_view(old(self).entries@), i as int, value@);
            assert(bindings_view(entries@) =~= bindings_view(old(self).entries@).update(
                i as int,
                (name@, value@),
            ));
        }
        self.entries = entries;
        done
    }

    /// Binds `prop` to `val` in the module bound at position `i`. Returns
    /// whether it did: a position past the last binding, and a value that is
    /// no module, leave the bindings as they were.
    pub fn set_member(&mut self, i: usize, prop: String, val: Block) -> (done: bool)
        ensures
            if i < old(self)@.len() {
                match old(self)@[i as int].1 {
                    BlockView::Mod(m) => done && final(self)@ == old(self)@.update(
                        i as int,
                        (
                            old(self)@[i as int].0,
                            BlockView::Mod(
                                ModuleView { vars: bind(m.vars, prop@, val@), path: m.path },
                            ),
                        ),
                    ),
                    _ => !done && final(self)@ == old(self)@,
                }
            } else {
                !done && final(self)@ == old(self)@
            },
    {
        if i >= self.entries.len() {
            return false;
        }
        proof {
            use_type_invariant(&*self);
        }
        let mut entries: Vec<Binding> = Vec::new();
        std::mem::swap(&mut entries, &mut self.entries);
        let Binding { name, value } = entries.remove(i);
        let (value, done) = match value {
            Block::Mod(m) => {
                let mut m = m;
                m.vars.insert(prop, val);
                (Block::Mod(m), true)
            },
            other => (other, false),
        };
        entries.insert(i, Binding { name, value });
        proof {
            lemma_update_distinct(bindings_view(old(self).entries@), i as int, value@);
            assert(bindings_view(entries@) =~= bindings_view(old(self).entries@).update(
                i as int,
                (name@, value@),
            ));
        }
        self.entries = entries;
        done
    }

    /// The names bound, each as a text, in order.
    pub fn names(&self) -> (r: Vec<Block>)
        ensures
            blocks_view(r@) == names(self@),
    {
        let mut out: Vec<Block> = Vec::new();
        let mut i: usize = 0;
        while i < self.entries.len()
            invariant
                i <= self.entries@.len(),
                out@.len() == i,
                forall|j: int|
                    0 <= j < i ==> block_view(#[trigger] out@[j]) == BlockView::Object(
                        TokenView::Text(self.entries@[j].name@),
                    ),
            decreases self.entries@.len() - i,
        {
            out.push(Block::Object(Token::Text(self.entries[i].name.clone())));
            i += 1;
        }
        out
    }
}

impl Module {
    /// A module without bindings, read from `path` if there is one.
    pub fn new(path: Option<String>) -> (m: Module)
        ensures
            m@ == (ModuleView { vars: Seq::empty(), path: option_text(path) }),
    {
        Module { vars: ModuleVars::new(), path }
    }
}

impl NativeFuncDef {
    /// The host function called `name` of the library `origin`; the empty
    /// origin stands for the interpreter itself.
    pub fn new(name: &str, origin: &str) -> (f: NativeFuncDef)
        ensures
            f.name@ == name@,
            f.origin@ == origin@,
    {
        NativeFuncDef { name: name.to_owned(), origin: origin.to_owned() }
    }
}

impl Block {
    /// The elements of a list, copied; `None` for any other block.
    pub fn get_list(&self) -> (r: Option<Vec<Block>>)
        ensures
            match self@ {
                BlockView::List(l) => r is Some && blocks_view(r->Some_0@) == l,
                _ => r is None,
            },
    {
        match self {
            Block::List(l) => Some(copy_blocks(l)),
            _ => None,
        }
    }

    /// Replaces the element at `idx` of a list by `val`. Any other block,
    /// and an index past the end, are refused, and `self` is left as it was.
    pub fn update_list(&mut self, idx: usize, val: Block) -> (r: Result<(), &'static str>)
        ensures
            match old(self)@ {
                BlockView::List(l) => if idx < l.len() {
                    r is Ok && final(self)@ == BlockView::List(l.update(idx as int, val@))
                } else {
                    r is Err && final(self)@ == old(self)@
                },
                _ => r is Err && final(self)@ == old(self)@,
            },
    {
        match self {
            Block::List(l) => {
                if idx < l.len() {
                    l[idx] = val;
                    assert(blocks_view(l@) =~= blocks_view(old(self)->List_0@).update(
                        idx as int,
                        val@,
                    ));
                    Ok(())
                } else {
                    Err("List update error: Index out of range")
                }
            },
            _ => Err("List update error: Not a list"),
        }
    }

    /// Appends `val` to a list. Any other block is refused, and `self` is
    /// left as it was.
    pub fn push_list(&mut self, val: Block) -> (r: Result<(), &'static str>)
        ensures
            match old(self)@ {
                BlockView::List(l) => r is Ok && final(self)@ == BlockView::List(l.push(val@)),
                _ => r is Err && final(self)@ == old(self)@,
            },
    {
        match self {
            Block::List(l) => {
                l.push(val);
                assert(blocks_view(l@) =~= blocks_view(old(self)->List_0@).push(val@));
                Ok(())
            },
            _ => Err("List push error: Not a list"),
        }
    }

    /// The value of a boolean; `None` for any other block.
    pub fn get_bool(&self) -> (r: Option<bool>)
        ensures
            match self@ {
                BlockView::Bool(b) => r == Some(b),
                _ => r is None,
            },
    {
        match self {
            Block::Bool(b) => Some(*b),
            _ => None,
        }
    }
}

} // verus!
