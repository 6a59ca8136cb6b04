//! The parser: from a token stream to expressions.
//!
//! What the parser returns is defined by the spec functions of this module
//! over the views of tokens and expressions; the executable functions are
//! proved to compute exactly that.

use crate::block::{
    blocks_view, expressions_view, Block, BlockView, Expression, ExpressionView, FuncDef,
    FuncDefView,
};
use crate::errors::{Error, ErrorKind};
use crate::lexer::{backward, forward, peek_in, token_at, TokenStream};
use crate::token::{token_views, Token, TokenView};
use vstd::prelude::*;

verus! {

/// How a token enters the tree: as an object, as an operator, as the start
/// of a scope, or not at all.
pub open spec fn categorize_view(t: TokenView) -> BlockView {
    match t {
        TokenView::Symbol(_) | TokenView::Number(_) | TokenView::Text(_) => BlockView::Object(t),
        TokenView::Arith(_)
        | TokenView::Comparison(_)
        | TokenView::FuncDef
        | TokenView::Assign
        | TokenView::List
        | TokenView::FuncCall
        | TokenView::FuncReturn
        | TokenView::Index
        | TokenView::Accessor => BlockView::Operator(t),
        TokenView::ScopeStart(s) => BlockView::Scope(s),
        _ => BlockView::Null,
    }
}

/// The expression with no operator and no operands.
pub open spec fn fresh() -> ExpressionView {
    ExpressionView { op: BlockView::Null, elems: Seq::empty() }
}

/// `e` with one more operand.
pub open spec fn with_elem(e: ExpressionView, b: BlockView) -> ExpressionView {
    ExpressionView { op: e.op, elems: e.elems.push(b) }
}

/// `e` headed by the operator `t`.
pub open spec fn with_op(e: ExpressionView, t: TokenView) -> ExpressionView {
    ExpressionView { op: BlockView::Operator(t), elems: e.elems }
}

/// The message of a failure that never comes about: the parser is stuck
/// where a step reads no token, and every step reads one.
pub open spec fn stuck() -> Seq<char> {
    Seq::empty()
}

/// Whether each of `params` is a symbol.
pub open spec fn all_symbols(params: Seq<BlockView>) -> bool {
    forall|i: int|
        0 <= i < params.len() ==> (#[trigger] params[i]) is Object && params[i]->Object_0 is Symbol
}

/// The block that an expression collapses to, or the message where its shape is
/// illegal:
/// - no operator and one operand: that operand;
/// - no operator, or the list operator: the list of the operands;
/// - the function operator with two operands, the second a function body or
///   an expression: a function whose parameters are the first operand, made a
///   one-element list if it is no list. Every parameter is a symbol: a
///   function with any other parameter is illegal;
/// - the function operator otherwise: illegal;
/// - any other operator: the expression itself.
pub open spec fn to_block_view(e: ExpressionView) -> Result<BlockView, Seq<char>> {
    if e.op is Null && e.elems.len() == 1 {
        Ok(e.elems[0])
    } else if e.op is Null || e.op == BlockView::Operator(TokenView::List) {
        Ok(BlockView::List(e.elems))
    } else if e.op == BlockView::Operator(TokenView::FuncDef) {
        if e.elems.len() == 2 && (e.elems[1] is FuncBody || e.elems[1] is Expr) {
            let args = if e.elems[0] is List {
                e.elems[0]
            } else {
                BlockView::List(seq![e.elems[0]])
            };
            if all_symbols(args->List_0) {
                Ok(BlockView::Func(Box::new(FuncDefView { args, body: e.elems[1] })))
            } else {
                Err("Illegal function parameter"@)
            }
        } else if e.elems.len() == 2 {
            Err("Invalid function body"@)
        } else {
            Err("Illegal function definition"@)
        }
    } else {
        Ok(BlockView::Expr(Box::new(e)))
    }
}

/// `acc` with the block of `x` appended, if `x` has any operand; the message where
/// `x` has operands and an illegal shape.
pub open spec fn with_item(acc: Seq<BlockView>, x: ExpressionView) -> Result<
    Seq<BlockView>,
    Seq<char>,
> {
    if x.elems.len() > 0 {
        match to_block_view(x) {
            Ok(b) => Ok(acc.push(b)),
            Err(m) => Err(m),
        }
    } else {
        Ok(acc)
    }
}

/// `e` with all its operands replaced by its own block.
pub open spec fn as_child(e: ExpressionView) -> Result<ExpressionView, Seq<char>> {
    match to_block_view(e) {
        Ok(b) => Ok(ExpressionView { op: e.op, elems: seq![b] }),
        Err(m) => Err(m),
    }
}

/// The number of elements of the parenthesised group that starts at `idx`:
/// one for each comma outside nested `(` and `{` scopes, and one more when
/// the group is closed by `)` or cut by `;`.
pub open spec fn count_elems(tokens: Seq<TokenView>, idx: int, depth: nat, count: nat) -> nat
    decreases tokens.len() - idx,
{
    if idx < 0 || idx >= tokens.len() {
        count
    } else {
        let t = tokens[idx];
        if t == TokenView::ScopeStart('(') || t == TokenView::ScopeStart('{') {
            count_elems(tokens, idx + 1, depth + 1, count)
        } else if depth > 0 {
            if t == TokenView::ScopeEnd(')') || t == TokenView::ScopeEnd('}') {
                count_elems(tokens, idx + 1, (depth - 1) as nat, count)
            } else {
                count_elems(tokens, idx + 1, depth, count)
            }
        } else if t == TokenView::ScopeEnd(')') || t == TokenView::Separator {
            count + 1
        } else if t == TokenView::List {
            count_elems(tokens, idx + 1, depth, count + 1)
        } else {
            count_elems(tokens, idx + 1, depth, count)
        }
    }
}

/// The first index from `idx` on that holds an end-of-line token, or the
/// length of the stream where there is none.
pub open spec fn comment_end(tokens: Seq<TokenView>, idx: usize) -> usize
    decreases remaining(tokens, idx),
    when tokens.len() <= usize::MAX
{
    if idx >= tokens.len() {
        idx
    } else if tokens[idx as int] == TokenView::NewLine {
        idx
    } else {
        comment_end(tokens, forward(idx, 1))
    }
}

/// How many tokens lie at or after the cursor.
pub open spec fn remaining(tokens: Seq<TokenView>, p: usize) -> nat {
    if p < tokens.len() {
        (tokens.len() - p) as nat
    } else {
        0
    }
}

/// Zero for an expression without operator, one for any other.
pub open spec fn op_rank(e: ExpressionView) -> nat {
    if e.op is Null {
        0
    } else {
        1
    }
}

/// The result of parsing one expression from position `p` into `e`, reading
/// up to a token of `end` or the end of the stream: the expression and the
/// position after it, or the message where the tokens are illegal.
///
/// Token by token: an object becomes an operand; a comment ends the
/// expression at the next end of line; a scope start opens a group
/// ([`parse_group`]), which a following `=>` turns into a function
/// ([`parse_func_tail`]); an operator is bound by [`parse_operator`]; any
/// other token is passed over.
///
/// The tests `p2 <= p` never hold of what the nested functions return (the
/// executable parser proves that every step advances); they are what makes
/// the definition terminate.
pub open spec fn parse_expr(
    tokens: Seq<TokenView>,
    p: usize,
    end: Seq<TokenView>,
    e: ExpressionView,
) -> Result<(ExpressionView, usize), Seq<char>>
    decreases remaining(tokens, p), 3 * op_rank(e) + 2, 0nat
    when tokens.len() <= usize::MAX
{
    let cur = token_at(tokens, p as int);
    if peek_in(cur, end) || cur is None {
        Ok((e, forward(p, 1)))
    } else {
        let tok = cur->Some_0;
        if tok is Comment {
            Ok((e, forward(comment_end(tokens, forward(p, 1)), 1)))
        } else {
            match categorize_view(tok) {
                BlockView::Object(_) => parse_expr(
                    tokens,
                    forward(p, 1),
                    end,
                    with_elem(e, BlockView::Object(tok)),
                ),
                BlockView::Scope(s) => match parse_group(tokens, forward(p, 1), s, e.op) {
                    Err(m) => Err(m),
                    Ok((obj, p2)) => if p2 <= p {
                        Err(stuck())
                    } else {
                        match parse_func_tail(tokens, p2, obj) {
                            Err(m) => Err(m),
                            Ok((item, p3)) => if p3 <= p {
                                Err(stuck())
                            } else {
                                parse_expr(tokens, p3, end, with_elem(e, item))
                            },
                        }
                    },
                },
                BlockView::Operator(_) => parse_operator(tokens, p, end, e, tok),
                _ => parse_expr(tokens, forward(p, 1), end, e),
            }
        }
    }
}

/// The level of the arithmetic operator `c`: two for `*` and `/`, one for
/// `+` and `-`.
pub open spec fn arith_level(c: char) -> nat {
    if c == '*' || c == '/' {
        2
    } else {
        1
    }
}

/// Whether the operator `tok` goes on a chain of arithmetic: `e` is an
/// arithmetic expression with both its operands, and `tok` an arithmetic
/// operator of the level of its operator, or of a lower one.
pub open spec fn chains(e: ExpressionView, tok: TokenView) -> bool {
    e.elems.len() >= 2 && e.op is Operator && e.op->Operator_0 is Arith && tok is Arith
        && arith_level(tok->Arith_0) <= arith_level(e.op->Operator_0->Arith_0)
}

/// The result of binding the operator `tok`, found at position `p`, to the
/// expression `e` read so far.
///
/// Arithmetic groups from left to right: in `10 - 2 - 3` the second `-`
/// takes `10 - 2` as its left operand, and so does the `+` in `2 * 3 + 1`
/// with `2 * 3`. The one exception is an operator of a higher level than
/// the one before it: in `1 + 2 * 3` the `*` binds the `2` alone, so that
/// the sum is `1 + (2 * 3)`. There is no other precedence: an operator
/// that binds the last operand only lets the expression that starts there
/// run to the end of the statement.
///
/// - `ret` on an expression without operator: the rest is parsed as one
///   expression and becomes the single operand (its first operand where it
///   has exactly one);
/// - any operator on an expression without operator: it becomes the
///   operator, and parsing goes on;
/// - any operator after an assignment: it binds the last operand only
///   ([`parse_secondary`]);
/// - `=`: what was read becomes the left side, the rest the right side;
/// - a call after a call, a comparison, or an arithmetic operator that
///   goes on a chain ([`chains`]): what was read becomes the first operand
///   of the new operator, and parsing goes on;
/// - an index: the last operand and the bracketed expression become one
///   `Index` expression;
/// - otherwise the operator binds the last operand only.
pub open spec fn parse_operator(
    tokens: Seq<TokenView>,
    p: usize,
    end: Seq<TokenView>,
    e: ExpressionView,
    tok: TokenView,
) -> Result<(ExpressionView, usize), Seq<char>>
    decreases remaining(tokens, p), 3 * op_rank(e) + 1, 0nat
    when tokens.len() <= usize::MAX
{
    if p >= tokens.len() {
        Err(stuck())
    } else if e.op is Null {
        if tok is FuncReturn {
            match parse_expr(tokens, forward(p, 1), end, fresh()) {
                Err(m) => Err(m),
                Ok((x, p2)) => if x.elems.len() == 1 {
                    Ok((with_elem(with_op(e, tok), x.elems[0]), p2))
                } else if x.elems.len() > 1 {
                    match to_block_view(x) {
                        Err(m) => Err(m),
                        Ok(b) => Ok((with_elem(with_op(e, tok), b), p2)),
                    }
                } else {
                    Ok((with_op(e, tok), p2))
                },
            }
        } else {
            parse_expr(tokens, forward(p, 1), end, with_op(e, tok))
        }
    } else if e.op == BlockView::Operator(TokenView::Assign) {
        parse_secondary(tokens, p, end, e)
    } else if tok is Assign {
        match as_child(e) {
            Err(m) => Err(m),
            Ok(e1) => match parse_expr(tokens, forward(p, 1), end, fresh()) {
                Err(m) => Err(m),
                Ok((rhs, p2)) => match with_item(e1.elems, rhs) {
                    Err(m) => Err(m),
                    Ok(elems) => Ok((ExpressionView { op: BlockView::Operator(tok), elems }, p2)),
                },
            },
        }
    } else if e.op == BlockView::Operator(TokenView::FuncCall) && tok is FuncCall {
        if e.elems.len() == 0 {
            Err("Function call without symbol or expression"@)
        } else {
            match as_child(e) {
                Err(m) => Err(m),
                Ok(e1) => parse_expr(tokens, forward(p, 1), end, with_op(e1, tok)),
            }
        }
    } else if tok is Index {
        if e.elems.len() == 0 {
            Err("Suffix [] without symbol or expression"@)
        } else {
            let ex = ExpressionView { op: BlockView::Operator(tok), elems: seq![e.elems.last()] };
            match parse_expr(tokens, forward(p, 2), seq![TokenView::ScopeEnd(']')], ex) {
                Err(m) => Err(m),
                Ok((x, p2)) => match to_block_view(x) {
                    Err(m) => Err(m),
                    Ok(b) => Ok(
                        (ExpressionView { op: e.op, elems: e.elems.drop_last().push(b) }, p2),
                    ),
                },
            }
        }
    } else if tok is Comparison {
        if e.elems.len() == 0 {
            Err("Comparison without symbol or expression"@)
        } else {
            match as_child(e) {
                Err(m) => Err(m),
                Ok(e1) => parse_expr(tokens, forward(p, 1), end, with_op(e1, tok)),
            }
        }
    } else if chains(e, tok) {
        match as_child(e) {
            Err(m) => Err(m),
            Ok(e1) => parse_expr(tokens, forward(p, 1), end, with_op(e1, tok)),
        }
    } else {
        parse_secondary(tokens, p, end, e)
    }
}

/// The result of letting the operator at position `p` bind only the last
/// operand of `e`: that operand (if any) starts a new expression, which is
/// parsed from `p` and takes the operand's place.
pub open spec fn parse_secondary(
    tokens: Seq<TokenView>,
    p: usize,
    end: Seq<TokenView>,
    e: ExpressionView,
) -> Result<(ExpressionView, usize), Seq<char>>
    decreases remaining(tokens, p), 3 * op_rank(e), 0nat
    when tokens.len() <= usize::MAX
{
    if e.op is Null {
        Err(stuck())
    } else {
        let seed = if e.elems.len() > 0 {
            ExpressionView { op: BlockView::Null, elems: seq![e.elems.last()] }
        } else {
            fresh()
        };
        let rest = if e.elems.len() > 0 {
            e.elems.drop_last()
        } else {
            e.elems
        };
        match parse_expr(tokens, p, end, seed) {
            Err(m) => Err(m),
            Ok((x, p2)) => match with_item(rest, x) {
                Err(m) => Err(m),
                Ok(elems) => Ok((ExpressionView { op: e.op, elems }, p2)),
            },
        }
    }
}

/// The result of parsing the statements of a scope from position `p` on,
/// appended to `acc`. A statement ends at `;` or at a token of `end`; the
/// scope ends at a token of `end` or at the end of the stream. Statements
/// without operands are dropped, and ends of line between statements are
/// passed over.
pub open spec fn parse_scope(
    tokens: Seq<TokenView>,
    p: usize,
    end: Seq<TokenView>,
    acc: Seq<ExpressionView>,
) -> Result<(Seq<ExpressionView>, usize), Seq<char>>
    decreases remaining(tokens, p), 6nat, 0nat
    when tokens.len() <= usize::MAX
{
    let cur = token_at(tokens, p as int);
    if peek_in(cur, end) || cur is None {
        Ok((acc, forward(p, 1)))
    } else if cur == Some(TokenView::NewLine) {
        parse_scope(tokens, forward(p, 1), end, acc)
    } else {
        match parse_expr(tokens, p, end.push(TokenView::Separator), fresh()) {
            Err(m) => Err(m),
            Ok((x, p2)) => {
                let acc2 = if x.elems.len() > 0 {
                    acc.push(x)
                } else {
                    acc
                };
                if peek_in(token_at(tokens, p2 - 1), end) {
                    Ok((acc2, p2))
                } else if p2 <= p {
                    Err(stuck())
                } else {
                    parse_scope(tokens, p2, end, acc2)
                }
            },
        }
    }
}

/// The result of parsing `n` list elements from position `p` on, each up to
/// a comma, appended to `acc`.
pub open spec fn parse_items(
    tokens: Seq<TokenView>,
    p: usize,
    n: nat,
    acc: Seq<BlockView>,
) -> Result<(Seq<BlockView>, usize), Seq<char>>
    decreases remaining(tokens, p), 6nat, n
    when tokens.len() <= usize::MAX
{
    if n == 0 {
        Ok((acc, p))
    } else {
        match parse_expr(tokens, p, seq![TokenView::List], fresh()) {
            Err(m) => Err(m),
            Ok((x, p2)) => match with_item(acc, x) {
                Err(m) => Err(m),
                Ok(acc2) => if p2 < p {
                    Err(stuck())
                } else {
                    parse_items(tokens, p2, (n - 1) as nat, acc2)
                },
            },
        }
    }
}

/// The block that the scope opened by `s` makes, the scope's content
/// starting at position `p`:
/// - `{`: a module body, the statements up to `}`;
/// - `[`: legal only in an expression headed by `Index`; the block of the
///   expression up to `]`;
/// - `(`: with one element ([`count_elems`]) the block of the expression up
///   to `)`; otherwise the list of the elements. Where a `=>` follows one
///   token later, that token is passed over.
pub open spec fn parse_group(
    tokens: Seq<TokenView>,
    p: usize,
    s: char,
    op: BlockView,
) -> Result<(BlockView, usize), Seq<char>>
    decreases remaining(tokens, p), 7nat, 0nat
    when tokens.len() <= usize::MAX
{
    if s == '{' {
        match parse_scope(tokens, p, seq![TokenView::ScopeEnd('}')], Seq::empty()) {
            Err(m) => Err(m),
            Ok((body, p2)) => Ok((BlockView::ModBody(body), p2)),
        }
    } else if s == '[' {
        if op == BlockView::Operator(TokenView::Index) {
            match parse_expr(tokens, p, seq![TokenView::ScopeEnd(']')], fresh()) {
                Err(m) => Err(m),
                Ok((x, p2)) => match to_block_view(x) {
                    Err(m) => Err(m),
                    Ok(b) => Ok((b, p2)),
                },
            }
        } else {
            Err("Illegal use of [] operator"@)
        }
    } else if s == '(' {
        let count = count_elems(tokens, p as int, 0, 0);
        let list = if count == 1 {
            parse_expr(tokens, p, seq![TokenView::ScopeEnd(')')], fresh())
        } else {
            let n = if count == 0 {
                0
            } else {
                (count - 1) as nat
            };
            match parse_items(tokens, p, n, Seq::empty()) {
                Err(m) => Err(m),
                Ok((items, p2)) => if p2 < p {
                    Err(stuck())
                } else {
                    match parse_expr(tokens, p2, seq![TokenView::ScopeEnd(')')], fresh()) {
                        Err(m) => Err(m),
                        Ok((x, p3)) => match with_item(items, x) {
                            Err(m) => Err(m),
                            Ok(elems) => Ok(
                                (
                                    ExpressionView {
                                        op: BlockView::Operator(TokenView::List),
                                        elems,
                                    },
                                    p3,
                                ),
                            ),
                        },
                    }
                },
            }
        };
        match list {
            Err(m) => Err(m),
            Ok((x, p2)) => match to_block_view(x) {
                Err(m) => Err(m),
                Ok(b) => Ok(
                    (
                        b,
                        if token_at(tokens, p2 + 1) == Some(TokenView::FuncDef) {
                            forward(p2, 1)
                        } else {
                            p2
                        },
                    ),
                ),
            },
        }
    } else {
        Err("Illegal scope start char"@)
    }
}

/// What the group `obj`, which ended before position `p`, becomes: itself,
/// or, where `=>` stands at `p`, the function with `obj` as parameters. The
/// body is a braced scope, or else one expression up to `;`, after which the
/// cursor steps back onto the token that ended it.
pub open spec fn parse_func_tail(tokens: Seq<TokenView>, p: usize, obj: BlockView) -> Result<
    (BlockView, usize),
    Seq<char>,
>
    decreases remaining(tokens, p), 7nat, 0nat
    when tokens.len() <= usize::MAX
{
    if token_at(tokens, p as int) == Some(TokenView::FuncDef) {
        let p3 = forward(p, 1);
        match token_at(tokens, p3 as int) {
            None => Err("Incomplete function definition"@),
            Some(t) => {
                let body = if t == TokenView::ScopeStart('{') {
                    match parse_scope(
                        tokens,
                        forward(p3, 1),
                        seq![TokenView::ScopeEnd('}')],
                        Seq::empty(),
                    ) {
                        Err(m) => Err(m),
                        Ok((stmts, p4)) => Ok((BlockView::FuncBody(stmts), p4)),
                    }
                } else {
                    match parse_expr(tokens, p3, seq![TokenView::Separator], fresh()) {
                        Err(m) => Err(m),
                        Ok((x, p4)) => Ok((BlockView::FuncBody(seq![x]), backward(p4, 1))),
                    }
                };
                match body {
                    Err(m) => Err(m),
                    Ok((b, p5)) => match to_block_view(
                        ExpressionView {
                            op: BlockView::Operator(TokenView::FuncDef),
                            elems: seq![obj, b],
                        },
                    ) {
                        Err(m) => Err(m),
                        Ok(f) => Ok((f, p5)),
                    },
                }
            },
        }
    } else {
        Ok((obj, p))
    }
}

/// The expressions that a whole token stream parses to.
pub open spec fn parse_view(tokens: Seq<TokenView>, p: usize) -> Result<
    Seq<ExpressionView>,
    Seq<char>,
> {
    match parse_scope(tokens, p, Seq::empty(), Seq::empty()) {
        Ok((exprs, _)) => Ok(exprs),
        Err(m) => Err(m),
    }
}


/// Whether each element of the list `args` is a symbol: see
/// [`all_symbols`].
fn symbols_only(args: &Block) -> (r: bool)
    requires
        args@ is List,
    ensures
        r == all_symbols(args@->List_0),
{
    match args {
        Block::List(l) => {
            proof {
                crate::block::lemma_blocks_view(l@);
            }
            let mut i: usize = 0;
            while i < l.len()
                invariant
                    i <= l@.len(),
                    blocks_view(l@) == args@->List_0,
                    forall|k: int|
                        0 <= k < i ==> (#[trigger] blocks_view(l@)[k]) is Object && blocks_view(
                            l@,
                        )[k]->Object_0 is Symbol,
                decreases l@.len() - i,
            {
                if !matches!(l[i], Block::Object(Token::Symbol(_))) {
                    assert(!(blocks_view(l@)[i as int] is Object && blocks_view(
                        l@,
                    )[i as int]->Object_0 is Symbol));
                    return false;
                }
                i += 1;
            }
            true
        },
        _ => false,
    }
}

/// The level of the arithmetic operator `c`: see [`arith_level`].
fn arith_rank(c: char) -> (r: u8)
    ensures
        r == arith_level(c),
{
    if c == '*' || c == '/' {
        2
    } else {
        1
    }
}

/// A one-token end set.
fn single(tok: Token) -> (v: Vec<Token>)
    ensures
        token_views(v@) == seq![tok@],
{
    let mut v: Vec<Token> = Vec::new();
    v.push(tok);
    v
}

/// The tokens of `end` followed by the statement separator.
fn with_separator(end: &Vec<Token>) -> (v: Vec<Token>)
    ensures
        token_views(v@) == token_views(end@).push(TokenView::Separator),
{
    let mut v: Vec<Token> = Vec::new();
    let mut i: usize = 0;
    while i < end.len()
        invariant
            i <= end.len(),
            v@.len() == i,
            forall|j: int| 0 <= j < i ==> v@[j]@ == end@[j]@,
        decreases end.len() - i,
    {
        v.push(end[i].copy());
        i += 1;
    }
    v.push(Token::Separator);
    v
}

impl Block {
    /// How a token enters the tree.
    pub fn categorize(tok: &Token) -> (b: Block)
        ensures
            b@ == categorize_view(tok@),
    {
        match tok {
            Token::Symbol(_) | Token::Number(_) | Token::Text(_) => Block::Object(tok.copy()),
            Token::Arith(_)
            | Token::Comparison(_)
            | Token::FuncDef
            | Token::Assign
            | Token::List
            | Token::FuncCall
            | Token::FuncReturn
            | Token::Index
            | Token::Accessor => Block::Operator(tok.copy()),
            Token::ScopeStart(s) => Block::Scope(*s),
            _ => Block::Null,
        }
    }
}

impl Expression {
    /// The expression with no operator and no operands.
    pub fn new() -> (e: Expression)
        ensures
            e@ == fresh(),
    {
        let e = Expression { op: Block::Null, elems: Vec::new() };
        assert(e@.elems =~= Seq::empty());
        e
    }

    /// Appends one operand.
    pub fn push_elem(&mut self, b: Block)
        ensures
            final(self)@ == with_elem(old(self)@, b@),
    {
        self.elems.push(b);
        assert(self@.elems =~= old(self)@.elems.push(b@));
    }

    /// Collapses the expression into a block: see [`to_block_view`]. An
    /// illegal shape is a parser error.
    pub fn to_block(self) -> (r: Result<Block, Error>)
        ensures
            match to_block_view(self@) {
                Ok(b) => r is Ok && r->Ok_0@ == b,
                Err(m) => r is Err && r->Err_0.kind() == ErrorKind::Parser && r->Err_0.message() == m && r->Err_0.is_plain(),
            },
    {
        let Expression { op, elems } = self;
        let mut elems = elems;
        let ghost views = blocks_view(elems@);
        let no_op = matches!(op, Block::Null);
        if no_op && elems.len() == 1 {
            match elems.pop() {
                Some(b) => Ok(b),
                None => Err(Error::new(ErrorKind::Parser, "Illegal expression")),
            }
        } else if no_op || matches!(op, Block::Operator(Token::List)) {
            Ok(Block::List(elems))
        } else if matches!(op, Block::Operator(Token::FuncDef)) {
            if elems.len() == 2 {
                let body = match elems.pop() {
                    Some(b) => b,
                    None => Block::Null,
                };
                let args = match elems.pop() {
                    Some(b) => b,
                    None => Block::Null,
                };
                let args = if matches!(args, Block::List(_)) {
                    args
                } else {
                    let mut l: Vec<Block> = Vec::new();
                    l.push(args);
                    assert(blocks_view(l@) =~= seq![views[0]]);
                    Block::List(l)
                };
                match body {
                    Block::FuncBody(_) | Block::Expr(_) => {
                        if !symbols_only(&args) {
                            return Err(Error::new(ErrorKind::Parser, "Illegal function parameter"));
                        }
                        let f = Block::Func(Box::new(FuncDef { args, body }));
                        assert(f@ == BlockView::Func(
                            Box::new(FuncDefView { args: args@, body: body@ }),
                        ));
                        Ok(f)
                    },
                    _ => Err(Error::new(ErrorKind::Parser, "Invalid function body")),
                }
            } else {
                Err(Error::new(ErrorKind::Parser, "Illegal function definition"))
            }
        } else {
            Ok(Block::Expr(Box::new(Expression { op, elems })))
        }
    }

    /// Counts the elements of the parenthesised group that starts under the
    /// cursor: see [`count_elems`].
    #[verifier::loop_isolation(false)]
    fn _count_list_elems(tokens: &TokenStream) -> (n: usize)
        ensures
            n == count_elems(tokens.tokens(), tokens.pointer() as int, 0, 0),
    {
        let mut idx: usize = tokens.current_idx();
        let mut elem_count: usize = 0;
        let mut sub_scopes_count: usize = 0;
        let len = tokens.len();
        let ghost toks = tokens.tokens();
        let ghost start = idx;
        while idx < len
            invariant
                toks == tokens.tokens(),
                len == toks.len(),
                start <= idx,
                elem_count + sub_scopes_count <= idx - start,
                count_elems(toks, idx as int, sub_scopes_count as nat, elem_count as nat)
                    == count_elems(toks, start as int, 0, 0),
            decreases len - idx,
        {
            match tokens.get_current_at(idx) {
                Some(t) => {
                    if matches!(t, Token::ScopeStart('(')) || matches!(t, Token::ScopeStart('{')) {
                        sub_scopes_count += 1;
                    } else if sub_scopes_count > 0 {
                        if matches!(t, Token::ScopeEnd(')')) || matches!(t, Token::ScopeEnd('}')) {
                            sub_scopes_count -= 1;
                        }
                    } else if matches!(t, Token::ScopeEnd(')')) || matches!(t, Token::Separator) {
                        elem_count += 1;
                        return elem_count;
                    } else if matches!(t, Token::List) {
                        elem_count += 1;
                    }
                },
                None => {},
            }
            idx += 1;
        }
        elem_count
    }

    /// Replaces the operands by the block of the whole expression.
    fn _convert_to_child_elem(&mut self) -> (r: Result<(), Error>)
        ensures
            match as_child(old(self)@) {
                Ok(e) => r is Ok && final(self)@ == e,
                Err(m) => r is Err && r->Err_0.kind() == ErrorKind::Parser && r->Err_0.message() == m && r->Err_0.is_plain(),
            },
    {
        let exp = self.copy();
        let b = exp.to_block()?;
        let mut elems: Vec<Block> = Vec::new();
        elems.push(b);
        assert(blocks_view(elems@) =~= seq![b@]);
        self.elems = elems;
        Ok(())
    }

    /// Appends the block of `x`, if `x` has any operand: see [`with_item`].
    fn push_item(items: &mut Vec<Block>, x: Expression) -> (r: Result<(), Error>)
        ensures
            match with_item(blocks_view(old(items)@), x@) {
                Ok(s) => r is Ok && blocks_view(final(items)@) == s,
                Err(m) => r is Err && r->Err_0.kind() == ErrorKind::Parser && r->Err_0.message() == m && r->Err_0.is_plain(),
            },
    {
        if x.elems.len() > 0 {
            let b = x.to_block()?;
            items.push(b);
        }
        Ok(())
    }

    /// Lets the operator under the cursor bind the last operand only: see
    /// [`parse_secondary`].
    fn _generic_add_new_op(&mut self, tokens: &mut TokenStream, end: &Vec<Token>) -> (r: Result<
        (),
        Error,
    >)
        requires
            !(old(self)@.op is Null),
        ensures
            final(tokens).tokens() == old(tokens).tokens(),
            match parse_secondary(
                old(tokens).tokens(),
                old(tokens).pointer(),
                token_views(end@),
                old(self)@,
            ) {
                Ok((e, p)) => r is Ok && final(self)@ == e && final(tokens).pointer() == p,
                Err(m) => r is Err && r->Err_0.kind() == ErrorKind::Parser && r->Err_0.message() == m && r->Err_0.is_plain(),
            },
            r is Ok ==> final(tokens).pointer() > old(tokens).pointer() || old(tokens).pointer()
                == usize::MAX,
        decreases remaining(old(tokens).tokens(), old(tokens).pointer()), 3 * op_rank(old(self)@), 0nat,
    {
        proof {
            tokens.lemma_len_fits();
        }
        let mut exp = Expression::new();
        if self.elems.len() > 0 {
            match self.elems.pop() {
                Some(b) => {
                    exp.elems.push(b);
                    assert(exp@.elems =~= seq![old(self)@.elems.last()]);
                },
                None => {},
            }
            assert(self@.elems =~= old(self)@.elems.drop_last());
        }
        exp.parse(tokens, end)?;
        Expression::push_item(&mut self.elems, exp)?;
        Ok(())
    }

    /// Binds the operator `tok`, which stands under the cursor: see
    /// [`parse_operator`]. Returns whether the expression goes on.
    fn parse_operator(&mut self, tokens: &mut TokenStream, end: &Vec<Token>, tok: Token) -> (r:
        Result<bool, Error>)
        requires
            old(tokens).current() == Some(tok@),
            categorize_view(tok@) is Operator,
        ensures
            final(tokens).tokens() == old(tokens).tokens(),
            match r {
                Ok(true) => parse_expr(
                    final(tokens).tokens(),
                    final(tokens).pointer(),
                    token_views(end@),
                    final(self)@,
                ) == parse_operator(
                    old(tokens).tokens(),
                    old(tokens).pointer(),
                    token_views(end@),
                    old(self)@,
                    tok@,
                ),
                Ok(false) => parse_operator(
                    old(tokens).tokens(),
                    old(tokens).pointer(),
                    token_views(end@),
                    old(self)@,
                    tok@,
                ) == Ok::<(ExpressionView, usize), Seq<char>>(
                    (final(self)@, final(tokens).pointer()),
                ),
                Err(e) => e.kind() == ErrorKind::Parser && e.is_plain() && parse_operator(
                    old(tokens).tokens(),
                    old(tokens).pointer(),
                    token_views(end@),
                    old(self)@,
                    tok@,
                ) == Err::<(ExpressionView, usize), Seq<char>>(e.message()),
            },
            r is Ok ==> final(tokens).pointer() > old(tokens).pointer(),
        decreases
                remaining(old(tokens).tokens(), old(tokens).pointer()),
                3 * op_rank(old(self)@) + 1,
                0nat,
    {
        proof {
            tokens.lemma_len_fits();
        }
        if matches!(self.op, Block::Null) {
            if matches!(tok, Token::FuncReturn) {
                self.op = Block::Operator(tok);
                tokens.inc();
                let mut exp = Expression::new();
                exp.parse(tokens, end)?;
                if exp.elems.len() == 1 {
                    match exp.elems.pop() {
                        Some(b) => {
                            self.push_elem(b);
                        },
                        None => {},
                    }
                } else if exp.elems.len() > 1 {
                    let b = exp.to_block()?;
                    self.push_elem(b);
                }
                Ok(false)
            } else {
                self.op = Block::Operator(tok);
                tokens.inc();
                Ok(true)
            }
        } else if matches!(self.op, Block::Operator(Token::Assign)) {
            self._generic_add_new_op(tokens, end)?;
            Ok(false)
        } else if matches!(tok, Token::Assign) {
            self._convert_to_child_elem()?;
            self.op = Block::Operator(tok);
            tokens.inc();
            let mut rhs = Expression::new();
            rhs.parse(tokens, end)?;
            Expression::push_item(&mut self.elems, rhs)?;
            Ok(false)
        } else if matches!(self.op, Block::Operator(Token::FuncCall)) && matches!(
            tok,
            Token::FuncCall
        ) {
            if self.elems.len() == 0 {
                return Err(
                    Error::new(ErrorKind::Parser, "Function call without symbol or expression"),
                );
            }
            self._convert_to_child_elem()?;
            self.op = Block::Operator(tok);
            tokens.inc();
            Ok(true)
        } else if matches!(tok, Token::Index) {
            let last = match self.elems.pop() {
                Some(b) => b,
                None => {
                    return Err(
                        Error::new(ErrorKind::Parser, "Suffix [] without symbol or expression"),
                    );
                },
            };
            assert(self@.elems =~= old(self)@.elems.drop_last());
            tokens.inc_n(2);
            let mut elems: Vec<Block> = Vec::new();
            elems.push(last);
            assert(blocks_view(elems@) =~= seq![old(self)@.elems.last()]);
            let mut ex = Expression { op: Block::Operator(tok), elems };
            ex.parse(tokens, &single(Token::ScopeEnd(']')))?;
            let b = ex.to_block()?;
            self.push_elem(b);
            Ok(false)
        } else if matches!(tok, Token::Comparison(_)) {
            if self.elems.len() == 0 {
                return Err(
                    Error::new(ErrorKind::Parser, "Comparison without symbol or expression"),
                );
            }
            self._convert_to_child_elem()?;
            self.op = Block::Operator(tok);
            tokens.inc();
            Ok(true)
        } else if self.chains(&tok) {
            self._convert_to_child_elem()?;
            self.op = Block::Operator(tok);
            tokens.inc();
            Ok(true)
        } else {
            self._generic_add_new_op(tokens, end)?;
            Ok(false)
        }
    }

    /// Whether the operator `tok` goes on a chain of arithmetic: see
    /// [`chains`].
    fn chains(&self, tok: &Token) -> (r: bool)
        ensures
            r == chains(self@, tok@),
    {
        proof {
            crate::block::lemma_blocks_view(self.elems@);
        }
        if self.elems.len() < 2 {
            return false;
        }
        match (&self.op, tok) {
            (Block::Operator(Token::Arith(d)), Token::Arith(c)) => arith_rank(*c) <= arith_rank(*d),
            _ => false,
        }
    }

    /// Parses the content of the scope that `s` opened: see [`parse_group`].
    #[verifier::loop_isolation(false)]
    fn parse_group(tokens: &mut TokenStream, s: char, op: &Block) -> (r: Result<Block, Error>)
        ensures
            final(tokens).tokens() == old(tokens).tokens(),
            match parse_group(old(tokens).tokens(), old(tokens).pointer(), s, op@) {
                Ok((b, p)) => r is Ok && r->Ok_0@ == b && final(tokens).pointer() == p,
                Err(m) => r is Err && r->Err_0.kind() == ErrorKind::Parser && r->Err_0.message() == m && r->Err_0.is_plain(),
            },
            r is Ok ==> final(tokens).pointer() > old(tokens).pointer() || old(tokens).pointer()
                == usize::MAX,
        decreases remaining(old(tokens).tokens(), old(tokens).pointer()), 7nat, 0nat,
    {
        proof {
            tokens.lemma_len_fits();
        }
        let ghost toks = tokens.tokens();
        let ghost p0 = tokens.pointer();
        if s == '{' {
            let scoped = Expression::parse_scope(tokens, &single(Token::ScopeEnd('}')))?;
            Ok(Block::ModBody(scoped))
        } else if s == '[' {
            if matches!(op, Block::Operator(Token::Index)) {
                let mut ex = Expression::new();
                ex.parse(tokens, &single(Token::ScopeEnd(']')))?;
                ex.to_block()
            } else {
                Err(Error::new(ErrorKind::Parser, "Illegal use of [] operator"))
            }
        } else if s == '(' {
            let count = Expression::_count_list_elems(tokens);
            let close = single(Token::ScopeEnd(')'));
            let mut ex_list = Expression::new();
            if count == 1 {
                ex_list.parse(tokens, &close)?;
            } else {
                ex_list.op = Block::Operator(Token::List);
                let n: usize = if count == 0 {
                    0
                } else {
                    count - 1
                };
                let comma = single(Token::List);
                let mut items: Vec<Block> = Vec::new();
                let mut i: usize = 0;
                assert(blocks_view(items@) =~= Seq::empty());
                while i < n
                    invariant
                        i <= n,
                        tokens.tokens() == toks,
                        toks.len() <= usize::MAX,
                        tokens.pointer() >= p0,
                        token_views(comma@) == seq![TokenView::List],
                        parse_items(toks, tokens.pointer(), (n - i) as nat, blocks_view(items@))
                            == parse_items(toks, p0, n as nat, Seq::empty()),
                    decreases n - i,
                {
                    let mut ex = Expression::new();
                    ex.parse(tokens, &comma)?;
                    Expression::push_item(&mut items, ex)?;
                    i += 1;
                }
                let mut ex = Expression::new();
                ex.parse(tokens, &close)?;
                Expression::push_item(&mut items, ex)?;
                ex_list.elems = items;
            }
            if tokens.next_is(&Some(Token::FuncDef)) {
                tokens.inc();
            }
            ex_list.to_block()
        } else {
            Err(Error::new(ErrorKind::Parser, "Illegal scope start char"))
        }
    }

    /// Turns the group `obj` into a function where `=>` stands under the
    /// cursor: see [`parse_func_tail`].
    fn parse_func_tail(tokens: &mut TokenStream, obj: Block) -> (r: Result<Block, Error>)
        ensures
            final(tokens).tokens() == old(tokens).tokens(),
            match parse_func_tail(old(tokens).tokens(), old(tokens).pointer(), obj@) {
                Ok((b, p)) => r is Ok && r->Ok_0@ == b && final(tokens).pointer() == p,
                Err(m) => r is Err && r->Err_0.kind() == ErrorKind::Parser && r->Err_0.message() == m && r->Err_0.is_plain(),
            },
            r is Ok ==> final(tokens).pointer() >= old(tokens).pointer(),
        decreases remaining(old(tokens).tokens(), old(tokens).pointer()), 7nat, 0nat,
    {
        proof {
            tokens.lemma_len_fits();
        }
        let is_def = match tokens.get_current() {
            Some(t) => matches!(t, Token::FuncDef),
            None => false,
        };
        if !is_def {
            return Ok(obj);
        }
        tokens.inc();
        let brace = match tokens.get_current() {
            Some(t) => matches!(t, Token::ScopeStart('{')),
            None => {
                return Err(Error::new(ErrorKind::Parser, "Incomplete function definition"));
            },
        };
        let body = if brace {
            tokens.inc();
            let scoped = Expression::parse_scope(tokens, &single(Token::ScopeEnd('}')))?;
            Block::FuncBody(scoped)
        } else {
            let mut body_exp = Expression::new();
            body_exp.parse(tokens, &single(Token::Separator))?;
            tokens.dec();
            let mut stmts: Vec<Expression> = Vec::new();
            stmts.push(body_exp);
            assert(expressions_view(stmts@) =~= seq![body_exp@]);
            Block::FuncBody(stmts)
        };
        let mut elems: Vec<Block> = Vec::new();
        elems.push(obj);
        elems.push(body);
        assert(blocks_view(elems@) =~= seq![obj@, body@]);
        let exp = Expression { op: Block::Operator(Token::FuncDef), elems };
        exp.to_block()
    }

    /// Parses the statements of a scope up to a token of `end`: see
    /// [`parse_scope`].
    #[verifier::loop_isolation(false)]
    fn parse_scope(tokens: &mut TokenStream, end: &Vec<Token>) -> (r: Result<
        Vec<Expression>,
        Error,
    >)
        ensures
            final(tokens).tokens() == old(tokens).tokens(),
            match parse_scope(
                old(tokens).tokens(),
                old(tokens).pointer(),
                token_views(end@),
                Seq::empty(),
            ) {
                Ok((exprs, p)) => r is Ok && expressions_view(r->Ok_0@) == exprs
                    && final(tokens).pointer() == p,
                Err(m) => r is Err && r->Err_0.kind() == ErrorKind::Parser && r->Err_0.message() == m && r->Err_0.is_plain(),
            },
            r is Ok ==> final(tokens).pointer() > old(tokens).pointer() || old(tokens).pointer()
                == usize::MAX,
        decreases remaining(old(tokens).tokens(), old(tokens).pointer()), 6nat, 0nat,
    {
        proof {
            tokens.lemma_len_fits();
        }
        let ghost toks = tokens.tokens();
        let ghost p0 = tokens.pointer();
        let ghost endv = token_views(end@);
        let mut output: Vec<Expression> = Vec::new();
        let end_tokens = with_separator(end);
        assert(expressions_view(output@) =~= Seq::empty());
        loop
            invariant
                tokens.tokens() == toks,
                toks.len() <= usize::MAX,
                tokens.pointer() >= p0,
                endv == token_views(end@),
                token_views(end_tokens@) == endv.push(TokenView::Separator),
                parse_scope(toks, tokens.pointer(), endv, expressions_view(output@)) == parse_scope(
                    toks,
                    p0,
                    endv,
                    Seq::empty(),
                ),
            decreases remaining(toks, tokens.pointer()),
        {
            if tokens.current_is_in(&Some(end.as_slice())) || tokens.current_is(&None) {
                tokens.inc();
                return Ok(output);
            } else if tokens.current_is(&Some(Token::_NewLine)) {
                tokens.inc();
                continue ;
            }
            let mut exp = Expression::new();
            exp.parse(tokens, &end_tokens)?;
            if exp.elems.len() > 0 {
                let ghost before = expressions_view(output@);
                output.push(exp);
                assert(expressions_view(output@) =~= before.push(exp@));
            }
            if tokens.prev_is_in(&Some(end.as_slice())) {
                return Ok(output);
            }
        }
    }

    /// Moves the cursor to the next end-of-line token, or to the end of the
    /// stream where there is none.
    #[verifier::loop_isolation(false)]
    fn skip_comment(tokens: &mut TokenStream)
        ensures
            final(tokens).tokens() == old(tokens).tokens(),
            final(tokens).pointer() == comment_end(old(tokens).tokens(), old(tokens).pointer()),
            final(tokens).pointer() >= old(tokens).pointer(),
    {
        proof {
            tokens.lemma_len_fits();
        }
        loop
            invariant
                tokens.tokens() == old(tokens).tokens(),
                tokens.pointer() >= old(tokens).pointer(),
                comment_end(tokens.tokens(), tokens.pointer()) == comment_end(
                    old(tokens).tokens(),
                    old(tokens).pointer(),
                ),
            decreases remaining(tokens.tokens(), tokens.pointer()),
        {
            match tokens.get_current() {
                Some(t) => {
                    if t.is_newline_token() {
                        return ;
                    }
                },
                None => {
                    return ;
                },
            }
            tokens.inc();
        }
    }

    /// Parses one expression into `self`, up to a token of `end`: see
    /// [`parse_expr`].
    #[verifier::loop_isolation(false)]
    fn parse(&mut self, tokens: &mut TokenStream, end: &Vec<Token>) -> (r: Result<(), Error>)
        ensures
            final(tokens).tokens() == old(tokens).tokens(),
            match parse_expr(
                old(tokens).tokens(),
                old(tokens).pointer(),
                token_views(end@),
                old(self)@,
            ) {
                Ok((e, p)) => r is Ok && final(self)@ == e && final(tokens).pointer() == p,
                Err(m) => r is Err && r->Err_0.kind() == ErrorKind::Parser && r->Err_0.message() == m && r->Err_0.is_plain(),
            },
            r is Ok ==> final(tokens).pointer() > old(tokens).pointer() || old(tokens).pointer()
                == usize::MAX,
        decreases
                remaining(old(tokens).tokens(), old(tokens).pointer()),
                3 * op_rank(old(self)@) + 2,
                0nat,
    {
        proof {
            tokens.lemma_len_fits();
        }
        let ghost toks = tokens.tokens();
        let ghost p0 = tokens.pointer();
        let ghost e0 = self@;
        let ghost endv = token_views(end@);
        loop
            invariant
                tokens.tokens() == toks,
                toks.len() <= usize::MAX,
                tokens.pointer() >= p0,
                tokens.pointer() > p0 || self@ == e0,
                endv == token_views(end@),
                parse_expr(toks, tokens.pointer(), endv, self@) == parse_expr(toks, p0, endv, e0),
            decreases remaining(toks, tokens.pointer()),
        {
            if tokens.current_is_in(&Some(end.as_slice())) || tokens.current_is(&None) {
                tokens.inc();
                return Ok(());
            }
            let tok = match tokens.get_current() {
                Some(t) => t.copy(),
                None => {
                    return Ok(());
                },
            };
            if matches!(tok, Token::_Comment) {
                tokens.inc();
                Expression::skip_comment(tokens);
                tokens.inc();
                return Ok(());
            }
            let cat_tok = Block::categorize(&tok);
            match cat_tok {
                Block::Object(_) => {
                    self.push_elem(cat_tok);
                    tokens.inc();
                },
                Block::Scope(s) => {
                    tokens.inc();
                    let obj = Expression::parse_group(tokens, s, &self.op)?;
                    let item = Expression::parse_func_tail(tokens, obj)?;
                    self.push_elem(item);
                },
                Block::Operator(_) => {
                    let go_on = self.parse_operator(tokens, end, tok)?;
                    if !go_on {
                        return Ok(());
                    }
                },
                _ => {
                    tokens.inc();
                },
            }
        }
    }
}

/// Whether `r` is what parsing `tokens` from position `p` on gives: the
/// expressions of [`parse_view`], or a parser error with its message.
///
/// Arithmetic groups from left to right, `10 - 2 - 3` as `(10 - 2) - 3`;
/// only `*` and `/` after `+` or `-` bind the operand before them alone,
/// `1 + 2 * 3` as `1 + (2 * 3)` ([`parse_operator`]). Every parameter of a
/// function is a symbol ([`to_block_view`]).
pub open spec fn parsed_as(
    tokens: Seq<TokenView>,
    p: usize,
    r: Result<Vec<Expression>, Error>,
) -> bool {
    match parse_view(tokens, p) {
        Ok(exprs) => r is Ok && expressions_view(r->Ok_0@) == exprs,
        Err(m) => r is Err && r->Err_0.kind() == ErrorKind::Parser && r->Err_0.message() == m
            && r->Err_0.is_plain(),
    }
}

/// Parses a whole token stream, from the cursor on, into its expressions:
/// the statements of [`parse_scope`] with no end token. Tokens of an illegal
/// shape give a parser error. See [`parsed_as`].
pub fn parse(tokens: &mut TokenStream) -> (r: Result<Vec<Expression>, Error>)
    ensures
        final(tokens).tokens() == old(tokens).tokens(),
        parsed_as(old(tokens).tokens(), old(tokens).pointer(), r),
{
    let end: Vec<Token> = Vec::new();
    assert(token_views(end@) =~= Seq::empty());
    Expression::parse_scope(tokens, &end)
}

} // verus!
