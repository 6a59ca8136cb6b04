//! Equality and order of values.
//!
//! Two blocks are equal when they are the same variant with equal contents;
//! numbers are equal as binary64 values, native functions by their name,
//! modules when they bind the same names to equal values and have the same
//! path. The order ranks the variants in the order of their declaration and
//! compares contents of the same variant from left to right; it is partial,
//! since a NaN is ordered with no number.

use crate::block::{
    lookup, Binding, Block, BlockView, Expression, ExpressionView, Module, Vars,
};
use crate::number::{double_compare, double_order};
use crate::text::chars_of;
use crate::token::{token_eq, Token, TokenView};
use vstd::prelude::*;

verus! {

/// The outcome "less than".
pub const LESS: i8 = -1;

/// The outcome "equal".
pub const EQUAL: i8 = 0;

/// The outcome "greater than".
pub const GREATER: i8 = 1;

/// The outcome "not ordered".
pub const UNORDERED: i8 = 2;

/// How two integers compare.
pub open spec fn int_order(a: int, b: int) -> i8 {
    if a < b {
        LESS
    } else if a > b {
        GREATER
    } else {
        EQUAL
    }
}

/// How two texts compare from index `i` on: by the first character in which
/// they differ, or else by their lengths.
pub open spec fn text_order_from(a: Seq<char>, b: Seq<char>, i: int) -> i8
    decreases a.len() - i,
{
    if i < 0 || i >= a.len() || i >= b.len() {
        int_order(a.len() as int, b.len() as int)
    } else if a[i] != b[i] {
        int_order(a[i] as u32 as int, b[i] as u32 as int)
    } else {
        text_order_from(a, b, i + 1)
    }
}

/// How two texts compare.
pub open spec fn text_order(a: Seq<char>, b: Seq<char>) -> i8 {
    text_order_from(a, b, 0)
}

/// The rank of a token's variant.
pub open spec fn token_rank(t: TokenView) -> int {
    match t {
        TokenView::Number(_) => 0,
        TokenView::Text(_) => 1,
        TokenView::Symbol(_) => 2,
        TokenView::Arith(_) => 3,
        TokenView::Comparison(_) => 4,
        TokenView::ScopeStart(_) => 5,
        TokenView::ScopeEnd(_) => 6,
        TokenView::Separator => 7,
        TokenView::FuncDef => 8,
        TokenView::FuncCall => 9,
        TokenView::FuncReturn => 10,
        TokenView::List => 11,
        TokenView::Index => 12,
        TokenView::Assign => 13,
        TokenView::Accessor => 14,
        TokenView::Comment => 15,
        TokenView::NewLine => 16,
    }
}

/// How two tokens compare: by the rank of their variants, then by their
/// contents.
pub open spec fn token_order(a: TokenView, b: TokenView) -> i8 {
    if token_rank(a) != token_rank(b) {
        int_order(token_rank(a), token_rank(b))
    } else {
        match (a, b) {
            (TokenView::Number(x), TokenView::Number(y)) => double_order(x, y),
            (TokenView::Text(x), TokenView::Text(y)) => text_order(x, y),
            (TokenView::Symbol(x), TokenView::Symbol(y)) => text_order(x, y),
            (TokenView::Comparison(x), TokenView::Comparison(y)) => text_order(x, y),
            (TokenView::Arith(x), TokenView::Arith(y)) => int_order(x as u32 as int, y as u32 as int),
            (TokenView::ScopeStart(x), TokenView::ScopeStart(y)) => int_order(
                x as u32 as int,
                y as u32 as int,
            ),
            (TokenView::ScopeEnd(x), TokenView::ScopeEnd(y)) => int_order(
                x as u32 as int,
                y as u32 as int,
            ),
            _ => EQUAL,
        }
    }
}

/// The rank of a block's variant.
pub open spec fn block_rank(b: BlockView) -> int {
    match b {
        BlockView::Null => 0,
        BlockView::Bool(_) => 1,
        BlockView::Object(_) => 2,
        BlockView::Operator(_) => 3,
        BlockView::Scope(_) => 4,
        BlockView::Expr(_) => 5,
        BlockView::List(_) => 6,
        BlockView::Func(_) => 7,
        BlockView::FuncBody(_) => 8,
        BlockView::NativeFunc(_, _) => 9,
        BlockView::Mod(_) => 10,
        BlockView::ModBody(_) => 11,
    }
}

/// How two blocks compare.
pub open spec fn block_order(a: BlockView, b: BlockView) -> i8
    decreases a, 0nat,
{
    if block_rank(a) != block_rank(b) {
        int_order(block_rank(a), block_rank(b))
    } else {
        match (a, b) {
            (BlockView::Bool(x), BlockView::Bool(y)) => int_order(
                if x {
                    1
                } else {
                    0
                },
                if y {
                    1
                } else {
                    0
                },
            ),
            (BlockView::Object(x), BlockView::Object(y)) => token_order(x, y),
            (BlockView::Operator(x), BlockView::Operator(y)) => token_order(x, y),
            (BlockView::Scope(x), BlockView::Scope(y)) => int_order(x as u32 as int, y as u32 as int),
            (BlockView::Expr(x), BlockView::Expr(y)) => expression_order(*x, *y),
            (BlockView::List(x), BlockView::List(y)) => blocks_order(x, y, 0),
            (BlockView::Func(x), BlockView::Func(y)) => {
                let c = block_order(x.args, y.args);
                if c != EQUAL {
                    c
                } else {
                    block_order(x.body, y.body)
                }
            },
            (BlockView::FuncBody(x), BlockView::FuncBody(y)) => expressions_order(x, y, 0),
            (BlockView::NativeFunc(x, _), BlockView::NativeFunc(y, _)) => text_order(x, y),
            (BlockView::Mod(x), BlockView::Mod(y)) => int_order(
                x.vars.len() as int,
                y.vars.len() as int,
            ),
            (BlockView::ModBody(x), BlockView::ModBody(y)) => expressions_order(x, y, 0),
            _ => EQUAL,
        }
    }
}

/// How two expressions compare: by their operators, then by their operands.
pub open spec fn expression_order(a: ExpressionView, b: ExpressionView) -> i8
    decreases a, 0nat,
{
    let c = block_order(a.op, b.op);
    if c != EQUAL {
        c
    } else {
        blocks_order(a.elems, b.elems, 0)
    }
}

/// How two sequences of blocks compare from index `i` on: by the first pair
/// of elements that is not equal, or else by their lengths.
pub open spec fn blocks_order(a: Seq<BlockView>, b: Seq<BlockView>, i: int) -> i8
    decreases a, a.len() - i,
{
    if i < 0 || i >= a.len() || i >= b.len() {
        int_order(a.len() as int, b.len() as int)
    } else {
        let c = block_order(a[i], b[i]);
        if c != EQUAL {
            c
        } else {
            blocks_order(a, b, i + 1)
        }
    }
}

/// How two sequences of expressions compare from index `i` on.
pub open spec fn expressions_order(a: Seq<ExpressionView>, b: Seq<ExpressionView>, i: int) -> i8
    decreases a, a.len() - i,
{
    if i < 0 || i >= a.len() || i >= b.len() {
        int_order(a.len() as int, b.len() as int)
    } else {
        let c = expression_order(a[i], b[i]);
        if c != EQUAL {
            c
        } else {
            expressions_order(a, b, i + 1)
        }
    }
}

/// Whether two blocks are equal.
pub open spec fn block_eq(a: BlockView, b: BlockView) -> bool
    decreases a,
{
    match (a, b) {
        (BlockView::Null, BlockView::Null) => true,
        (BlockView::Bool(x), BlockView::Bool(y)) => x == y,
        (BlockView::Object(x), BlockView::Object(y)) => token_eq(x, y),
        (BlockView::Operator(x), BlockView::Operator(y)) => token_eq(x, y),
        (BlockView::Scope(x), BlockView::Scope(y)) => x == y,
        (BlockView::Expr(x), BlockView::Expr(y)) => expression_eq(*x, *y),
        (BlockView::List(x), BlockView::List(y)) => blocks_eq(x, y),
        (BlockView::Func(x), BlockView::Func(y)) => block_eq(x.args, y.args) && block_eq(
            x.body,
            y.body,
        ),
        (BlockView::FuncBody(x), BlockView::FuncBody(y)) => expressions_eq(x, y),
        (BlockView::NativeFunc(x, _), BlockView::NativeFunc(y, _)) => x == y,
        (BlockView::Mod(x), BlockView::Mod(y)) => vars_eq(x.vars, y.vars) && x.path == y.path,
        (BlockView::ModBody(x), BlockView::ModBody(y)) => expressions_eq(x, y),
        _ => false,
    }
}

/// Whether two expressions are equal.
pub open spec fn expression_eq(a: ExpressionView, b: ExpressionView) -> bool
    decreases a,
{
    block_eq(a.op, b.op) && blocks_eq(a.elems, b.elems)
}

/// Whether two sequences of blocks are equal, element by element.
pub open spec fn blocks_eq(a: Seq<BlockView>, b: Seq<BlockView>) -> bool
    decreases a,
{
    a.len() == b.len() && forall|i: int| 0 <= i < a.len() ==> block_eq(a[i], #[trigger] b[i])
}

/// Whether two sequences of expressions are equal, element by element.
pub open spec fn expressions_eq(a: Seq<ExpressionView>, b: Seq<ExpressionView>) -> bool
    decreases a,
{
    a.len() == b.len() && forall|i: int| 0 <= i < a.len() ==> expression_eq(a[i], #[trigger] b[i])
}

/// Whether two modules bind the same number of names, and `b` binds every
/// name of `a` to an equal value.
pub open spec fn vars_eq(a: Vars, b: Vars) -> bool
    decreases a,
{
    a.len() == b.len() && forall|i: int|
        0 <= i < a.len() ==> match lookup(b, (#[trigger] a[i]).0) {
            Some(v) => block_eq(a[i].1, v),
            None => false,
        }
}

/// How two integers compare.
fn order_of_sizes(a: usize, b: usize) -> (c: i8)
    ensures
        c == int_order(a as int, b as int),
{
    if a < b {
        LESS
    } else if a > b {
        GREATER
    } else {
        EQUAL
    }
}

/// How two characters compare.
fn order_of_chars(a: char, b: char) -> (c: i8)
    ensures
        c == int_order(a as u32 as int, b as u32 as int),
{
    let x: u32 = a as u32;
    let y: u32 = b as u32;
    if x < y {
        LESS
    } else if x > y {
        GREATER
    } else {
        EQUAL
    }
}

/// How two texts compare: see [`text_order`].
pub fn order_of_texts(a: &str, b: &str) -> (c: i8)
    ensures
        c == text_order(a@, b@),
{
    let x = chars_of(a);
    let y = chars_of(b);
    let mut i: usize = 0;
    while i < x.len() && i < y.len()
        invariant
            x@ == a@,
            y@ == b@,
            text_order_from(a@, b@, i as int) == text_order(a@, b@),
        decreases x@.len() - i,
    {
        if x[i] != y[i] {
            return order_of_chars(x[i], y[i]);
        }
        i += 1;
    }
    order_of_sizes(x.len(), y.len())
}

impl Token {
    /// The rank of the token's variant.
    fn rank(&self) -> (r: usize)
        ensures
            r == token_rank(self@),
    {
        match self {
            Token::Number(_) => 0,
            Token::Text(_) => 1,
            Token::Symbol(_) => 2,
            Token::Arith(_) => 3,
            Token::Comparison(_) => 4,
            Token::ScopeStart(_) => 5,
            Token::ScopeEnd(_) => 6,
            Token::Separator => 7,
            Token::FuncDef => 8,
            Token::FuncCall => 9,
            Token::FuncReturn => 10,
            Token::List => 11,
            Token::Index => 12,
            Token::Assign => 13,
            Token::Accessor => 14,
            Token::_Comment => 15,
            Token::_NewLine => 16,
        }
    }

    /// How this token compares to `other`: see [`token_order`].
    pub fn order(&self, other: &Token) -> (c: i8)
        ensures
            c == token_order(self@, other@),
    {
        let r1 = self.rank();
        let r2 = other.rank();
        if r1 != r2 {
            return order_of_sizes(r1, r2);
        }
        match self {
            Token::Number(x) => match other {
                Token::Number(y) => double_compare(x.bits, y.bits),
                _ => EQUAL,
            },
            Token::Text(x) => match other {
                Token::Text(y) => order_of_texts(x.as_str(), y.as_str()),
                _ => EQUAL,
            },
            Token::Symbol(x) => match other {
                Token::Symbol(y) => order_of_texts(x.as_str(), y.as_str()),
                _ => EQUAL,
            },
            Token::Comparison(x) => match other {
                Token::Comparison(y) => order_of_texts(x.as_str(), y.as_str()),
                _ => EQUAL,
            },
            Token::Arith(x) => match other {
                Token::Arith(y) => order_of_chars(*x, *y),
                _ => EQUAL,
            },
            Token::ScopeStart(x) => match other {
                Token::ScopeStart(y) => order_of_chars(*x, *y),
                _ => EQUAL,
            },
            Token::ScopeEnd(x) => match other {
                Token::ScopeEnd(y) => order_of_chars(*x, *y),
                _ => EQUAL,
            },
            _ => EQUAL,
        }
    }
}

impl Block {
    /// The rank of the block's variant.
    fn rank(&self) -> (r: usize)
        ensures
            r == block_rank(self@),
    {
        match self {
            Block::Null => 0,
            Block::Bool(_) => 1,
            Block::Object(_) => 2,
            Block::Operator(_) => 3,
            Block::Scope(_) => 4,
            Block::Expr(_) => 5,
            Block::List(_) => 6,
            Block::Func(_) => 7,
            Block::FuncBody(_) => 8,
            Block::NativeFunc(_) => 9,
            Block::Mod(_) => 10,
            Block::ModBody(_) => 11,
        }
    }

    /// How this block compares to `other`: [`LESS`], [`EQUAL`], [`GREATER`]
    /// or [`UNORDERED`], as [`block_order`] says.
    pub fn order(&self, other: &Block) -> (c: i8)
        ensures
            c == block_order(self@, other@),
        decreases *self, 0nat,
    {
        let r1 = self.rank();
        let r2 = other.rank();
        if r1 != r2 {
            return order_of_sizes(r1, r2);
        }
        match self {
            Block::Bool(x) => match other {
                Block::Bool(y) => order_of_sizes(
                    if *x {
                        1
                    } else {
                        0
                    },
                    if *y {
                        1
                    } else {
                        0
                    },
                ),
                _ => EQUAL,
            },
            Block::Object(x) => match other {
                Block::Object(y) => x.order(y),
                _ => EQUAL,
            },
            Block::Operator(x) => match other {
                Block::Operator(y) => x.order(y),
                _ => EQUAL,
            },
            Block::Scope(x) => match other {
                Block::Scope(y) => order_of_chars(*x, *y),
                _ => EQUAL,
            },
            Block::Expr(x) => match other {
                Block::Expr(y) => x.order(y),
                _ => EQUAL,
            },
            Block::List(x) => match other {
                Block::List(y) => order_of_blocks(x, y),
                _ => EQUAL,
            },
            Block::Func(x) => match other {
                Block::Func(y) => {
                    let c = x.args.order(&y.args);
                    if c != EQUAL {
                        c
                    } else {
                        x.body.order(&y.body)
                    }
                },
                _ => EQUAL,
            },
            Block::FuncBody(x) => match other {
                Block::FuncBody(y) => order_of_expressions(x, y),
                _ => EQUAL,
            },
            Block::NativeFunc(x) => match other {
                Block::NativeFunc(y) => order_of_texts(x.name.as_str(), y.name.as_str()),
                _ => EQUAL,
            },
            Block::Mod(x) => match other {
                Block::Mod(y) => order_of_sizes(x.vars.len(), y.vars.len()),
                _ => EQUAL,
            },
            Block::ModBody(x) => match other {
                Block::ModBody(y) => order_of_expressions(x, y),
                _ => EQUAL,
            },
            Block::Null => EQUAL,
        }
    }

    /// Whether this block equals `other`: see [`block_eq`].
    pub fn equals(&self, other: &Block) -> (r: bool)
        ensures
            r == block_eq(self@, other@),
        decreases *self,
    {
        match self {
            Block::Null => matches!(other, Block::Null),
            Block::Bool(x) => match other {
                Block::Bool(y) => *x == *y,
                _ => false,
            },
            Block::Object(x) => match other {
                Block::Object(y) => *x == *y,
                _ => false,
            },
            Block::Operator(x) => match other {
                Block::Operator(y) => *x == *y,
                _ => false,
            },
            Block::Scope(x) => match other {
                Block::Scope(y) => *x == *y,
                _ => false,
            },
            Block::Expr(x) => match other {
                Block::Expr(y) => x.equals(y),
                _ => false,
            },
            Block::List(x) => match other {
                Block::List(y) => equal_blocks(x, y),
                _ => false,
            },
            Block::Func(x) => match other {
                Block::Func(y) => x.args.equals(&y.args) && x.body.equals(&y.body),
                _ => false,
            },
            Block::FuncBody(x) => match other {
                Block::FuncBody(y) => equal_expressions(x, y),
                _ => false,
            },
            Block::NativeFunc(x) => match other {
                Block::NativeFunc(y) => x.name == y.name,
                _ => false,
            },
            Block::Mod(x) => match other {
                Block::Mod(y) => equal_vars(x.vars.bindings(), y) && equal_paths(&x.path, &y.path),
                _ => false,
            },
            Block::ModBody(x) => match other {
                Block::ModBody(y) => equal_expressions(x, y),
                _ => false,
            },
        }
    }
}

impl Expression {
    /// How this expression compares to `other`: see [`expression_order`].
    pub fn order(&self, other: &Expression) -> (c: i8)
        ensures
            c == expression_order(self@, other@),
        decreases *self, 0nat,
    {
        let c = self.op.order(&other.op);
        if c != EQUAL {
            c
        } else {
            order_of_blocks(&self.elems, &other.elems)
        }
    }

    /// Whether this expression equals `other`: see [`expression_eq`].
    pub fn equals(&self, other: &Expression) -> (r: bool)
        ensures
            r == expression_eq(self@, other@),
        decreases *self,
    {
        self.op.equals(&other.op) && equal_blocks(&self.elems, &other.elems)
    }
}

/// Whether two optional paths are the same.
fn equal_paths(a: &Option<String>, b: &Option<String>) -> (r: bool)
    ensures
        r == (crate::block::option_text(*a) == crate::block::option_text(*b)),
{
    match a {
        Some(x) => match b {
            Some(y) => *x == *y,
            None => false,
        },
        None => b.is_none(),
    }
}

/// How two vectors of blocks compare: see [`blocks_order`].
pub fn order_of_blocks(a: &Vec<Block>, b: &Vec<Block>) -> (c: i8)
    ensures
        c == blocks_order(crate::block::blocks_view(a@), crate::block::blocks_view(b@), 0),
    decreases *a, 1nat,
{
    let ghost av = crate::block::blocks_view(a@);
    let ghost bv = crate::block::blocks_view(b@);
    let mut i: usize = 0;
    while i < a.len() && i < b.len()
        invariant
            av == crate::block::blocks_view(a@),
            bv == crate::block::blocks_view(b@),
            blocks_order(av, bv, i as int) == blocks_order(av, bv, 0),
        decreases a@.len() - i,
    {
        let c = a[i].order(&b[i]);
        if c != EQUAL {
            return c;
        }
        i += 1;
    }
    order_of_sizes(a.len(), b.len())
}

/// How two vectors of expressions compare: see [`expressions_order`].
pub fn order_of_expressions(a: &Vec<Expression>, b: &Vec<Expression>) -> (c: i8)
    ensures
        c == expressions_order(
            crate::block::expressions_view(a@),
            crate::block::expressions_view(b@),
            0,
        ),
    decreases *a, 1nat,
{
    let ghost av = crate::block::expressions_view(a@);
    let ghost bv = crate::block::expressions_view(b@);
    let mut i: usize = 0;
    while i < a.len() && i < b.len()
        invariant
            av == crate::block::expressions_view(a@),
            bv == crate::block::expressions_view(b@),
            expressions_order(av, bv, i as int) == expressions_order(av, bv, 0),
        decreases a@.len() - i,
    {
        let c = a[i].order(&b[i]);
        if c != EQUAL {
            return c;
        }
        i += 1;
    }
    order_of_sizes(a.len(), b.len())
}

/// Whether two vectors of blocks are equal: see [`blocks_eq`].
pub fn equal_blocks(a: &Vec<Block>, b: &Vec<Block>) -> (r: bool)
    ensures
        r == blocks_eq(crate::block::blocks_view(a@), crate::block::blocks_view(b@)),
    decreases *a,
{
    if a.len() != b.len() {
        return false;
    }
    let ghost av = crate::block::blocks_view(a@);
    let ghost bv = crate::block::blocks_view(b@);
    let mut i: usize = 0;
    while i < a.len()
        invariant
            i <= a@.len(),
            a@.len() == b@.len(),
            av == crate::block::blocks_view(a@),
            bv == crate::block::blocks_view(b@),
            forall|j: int| 0 <= j < i ==> block_eq(av[j], #[trigger] bv[j]),
        decreases a@.len() - i,
    {
        if !a[i].equals(&b[i]) {
            assert(!block_eq(av[i as int], bv[i as int]));
            return false;
        }
        i += 1;
    }
    true
}

/// Whether two vectors of expressions are equal: see [`expressions_eq`].
pub fn equal_expressions(a: &Vec<Expression>, b: &Vec<Expression>) -> (r: bool)
    ensures
        r == expressions_eq(
            crate::block::expressions_view(a@),
            crate::block::expressions_view(b@),
        ),
    decreases *a,
{
    if a.len() != b.len() {
        return false;
    }
    let ghost av = crate::block::expressions_view(a@);
    let ghost bv = crate::block::expressions_view(b@);
    let mut i: usize = 0;
    while i < a.len()
        invariant
            i <= a@.len(),
            a@.len() == b@.len(),
            av == crate::block::expressions_view(a@),
            bv == crate::block::expressions_view(b@),
            forall|j: int| 0 <= j < i ==> expression_eq(av[j], #[trigger] bv[j]),
        decreases a@.len() - i,
    {
        if !a[i].equals(&b[i]) {
            assert(!expression_eq(av[i as int], bv[i as int]));
            return false;
        }
        i += 1;
    }
    true
}

/// Whether the bindings `a` and the module `b` bind the same names to equal
/// values: see [`vars_eq`].
pub fn equal_vars(a: &Vec<Binding>, b: &Module) -> (r: bool)
    ensures
        r == vars_eq(crate::block::bindings_view(a@), b@.vars),
    decreases *a,
{
    if a.len() != b.vars.len() {
        return false;
    }
    let ghost av = crate::block::bindings_view(a@);
    let ghost bv = b@.vars;
    let mut i: usize = 0;
    while i < a.len()
        invariant
            i <= a@.len(),
            a@.len() == bv.len(),
            av == crate::block::bindings_view(a@),
            bv == b@.vars,
            forall|j: int|
                0 <= j < i ==> match lookup(bv, (#[trigger] av[j]).0) {
                    Some(v) => block_eq(av[j].1, v),
                    None => false,
                },
        decreases a@.len() - i,
    {
        let same = match b.vars.get(&a[i].name) {
            Some(v) => a[i].value.equals(v),
            None => false,
        };
        if !same {
            assert(!(match lookup(bv, av[i as int].0) {
                Some(v) => block_eq(av[i as int].1, v),
                None => false,
            }));
            return false;
        }
        i += 1;
    }
    true
}

impl PartialEq for Block {
    fn eq(&self, other: &Block) -> (r: bool) {
        self.equals(other)
    }
}

impl vstd::std_specs::cmp::PartialEqSpecImpl for Block {
    open spec fn obeys_eq_spec() -> bool {
        true
    }

    open spec fn eq_spec(&self, other: &Block) -> bool {
        block_eq(self@, other@)
    }
}

impl PartialEq for Expression {
    fn eq(&self, other: &Expression) -> (r: bool) {
        self.equals(other)
    }
}

impl vstd::std_specs::cmp::PartialEqSpecImpl for Expression {
    open spec fn obeys_eq_spec() -> bool {
        true
    }

    open spec fn eq_spec(&self, other: &Expression) -> bool {
        expression_eq(self@, other@)
    }
}

} // verus!
