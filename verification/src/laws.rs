//! Laws of the language: what holds of every source, every value and every
//! namespace, proved from the definitions of the other modules.

use crate::block::{
    bind, distinct_names, expressions_view, Expression, index_of, lemma_bind_binds, lemma_bind_distinct, lemma_bind_keeps,
    lemma_index_of, lemma_merge_distinct, lemma_update_distinct, lookup, merge, names, BlockView,
    ExpressionView, FuncDefView, ModuleView, Vars,
};
use crate::errors::Error;
use crate::lexer::{
    forward, is_blank, lex_from, lex_view, peek_in, scanned_as, skip_blanks, token_at, trim_view,
    TokenStream,
};
use crate::parser::{
    all_symbols, as_child, categorize_view, chains, count_elems, fresh, op_rank, parse_expr, parse_func_tail,
    parse_group, parse_items, parse_operator, parse_scope, parse_secondary, parse_view,
    parsed_as, remaining, to_block_view, with_elem, with_item, with_op,
};
use crate::pkg::{ends_with, native_name, starts_with, with_prefix, with_suffix, Platform};
use crate::render::{print_pieces, PieceView};
use crate::semantics::{
    actual_args, apply_view, arith_view, assign_view, bind_params_view, call_view, char_texts,
    fold_number, foreach_view, formal_params, if_view, index_view, len_view, map_view,
    native_view,
    number_of, ok, pick_at, pick_index_view, resolve_all_view, resolve_view, run_view, solve_access_view,
    eval_failure, solve_call_view, solve_view, spill_view, store_view, type_tag, vars_view,
    Failure, NameSpaceView, State, Step, World,
};
use crate::token::TokenView;
use vstd::prelude::*;

verus! {

/// Whether the errors `a` and `b` are the same to whoever reads them: of
/// one kind, with one message, file name and line.
pub open spec fn same_error(a: Error, b: Error) -> bool {
    a.kind() == b.kind() && a.message() == b.message() && a.file_name() == b.file_name()
        && a.line() == b.line()
}

/// Scanning is deterministic: whatever two calls of the scanner give for
/// one source, both are streams of the same tokens with the cursor at the
/// start, or both are the same error.
pub proof fn law_lex_is_deterministic(
    code: Seq<char>,
    first: Result<TokenStream, Error>,
    second: Result<TokenStream, Error>,
)
    requires
        scanned_as(code, first),
        scanned_as(code, second),
    ensures
        match (first, second) {
            (Ok(a), Ok(b)) => a.tokens() == b.tokens() && a.pointer() == b.pointer(),
            (Err(a), Err(b)) => same_error(a, b),
            _ => false,
        },
{
}

/// Parsing is deterministic: whatever two calls of the parser give for the
/// same tokens from the same position, both are the same expressions, or
/// both are the same error.
pub proof fn law_parse_is_deterministic(
    tokens: Seq<TokenView>,
    p: usize,
    first: Result<Vec<Expression>, Error>,
    second: Result<Vec<Expression>, Error>,
)
    requires
        parsed_as(tokens, p, first),
        parsed_as(tokens, p, second),
    ensures
        match (first, second) {
            (Ok(a), Ok(b)) => expressions_view(a@) == expressions_view(b@),
            (Err(a), Err(b)) => same_error(a, b),
            _ => false,
        },
{
}

/// Whether every function inside the block `b` has a list of symbols as
/// its parameters.
pub open spec fn functions_take_symbols(b: BlockView) -> bool
    decreases b,
{
    match b {
        BlockView::Expr(e) => expression_takes_symbols(*e),
        BlockView::List(l) => forall|i: int| 0 <= i < l.len() ==> functions_take_symbols(l[i]),
        BlockView::Func(f) => f.args is List && all_symbols(f.args->List_0)
            && functions_take_symbols(f.body),
        BlockView::FuncBody(body) => forall|i: int|
            0 <= i < body.len() ==> expression_takes_symbols(body[i]),
        BlockView::ModBody(body) => forall|i: int|
            0 <= i < body.len() ==> expression_takes_symbols(body[i]),
        BlockView::Mod(m) => forall|i: int|
            0 <= i < m.vars.len() ==> functions_take_symbols(m.vars[i].1),
        _ => true,
    }
}

/// Whether every function inside the expression `e` has a list of symbols as
/// its parameters.
pub open spec fn expression_takes_symbols(e: ExpressionView) -> bool
    decreases e,
{
    functions_take_symbols(e.op) && forall|i: int|
        0 <= i < e.elems.len() ==> functions_take_symbols(e.elems[i])
}

/// Whether every function inside the blocks `s` has a list of symbols as
/// its parameters.
pub open spec fn blocks_take_symbols(s: Seq<BlockView>) -> bool {
    forall|i: int| 0 <= i < s.len() ==> functions_take_symbols(#[trigger] s[i])
}

/// Whether every function inside the expressions `s` has a list of symbols as
/// its parameters.
pub open spec fn expressions_take_symbols(s: Seq<ExpressionView>) -> bool {
    forall|i: int| 0 <= i < s.len() ==> expression_takes_symbols(#[trigger] s[i])
}

/// Collapsing an expression makes no function with a parameter that is no symbol.
pub proof fn lemma_to_block_takes_symbols(e: ExpressionView)
    requires
        expression_takes_symbols(e),
    ensures
        to_block_view(e) matches Ok(b) ==> functions_take_symbols(b),
{
    if to_block_view(e) is Ok && e.op == BlockView::Operator(TokenView::FuncDef) {
        let args = to_block_view(e)->Ok_0->Func_0.args;
        if !(e.elems[0] is List) {
            let single = seq![e.elems[0]];
            assert forall|i: int| 0 <= i < single.len() implies functions_take_symbols(
                single[i],
            ) by {}
        }
        assert(functions_take_symbols(args));
    }
}

/// Appending the block of an expression keeps the property.
proof fn lemma_with_item_takes_symbols(acc: Seq<BlockView>, x: ExpressionView)
    requires
        blocks_take_symbols(acc),
        expression_takes_symbols(x),
    ensures
        with_item(acc, x) matches Ok(s) ==> blocks_take_symbols(s),
{
    lemma_to_block_takes_symbols(x);
}

/// Making an expression its own only operand keeps the property.
proof fn lemma_as_child_takes_symbols(e: ExpressionView)
    requires
        expression_takes_symbols(e),
    ensures
        as_child(e) matches Ok(x) ==> expression_takes_symbols(x),
{
    lemma_to_block_takes_symbols(e);
}

/// Parsing one expression makes no function with a parameter that is no symbol.
proof fn lemma_parse_expr_takes_symbols(
    tokens: Seq<TokenView>,
    p: usize,
    end: Seq<TokenView>,
    e: ExpressionView,
)
    requires
        tokens.len() <= usize::MAX,
        expression_takes_symbols(e),
    ensures
        parse_expr(tokens, p, end, e) matches Ok((x, _)) ==> expression_takes_symbols(x),
    decreases remaining(tokens, p), 3 * op_rank(e) + 2, 0nat,
{
    let cur = token_at(tokens, p as int);
    if !(peek_in(cur, end) || cur is None) && !(cur->Some_0 is Comment) {
        let tok = cur->Some_0;
        match categorize_view(tok) {
            BlockView::Object(_) => {
                lemma_parse_expr_takes_symbols(
                    tokens,
                    forward(p, 1),
                    end,
                    with_elem(e, BlockView::Object(tok)),
                );
            },
            BlockView::Scope(s) => {
                lemma_parse_group_takes_symbols(tokens, forward(p, 1), s, e.op);
                if let Ok((obj, p2)) = parse_group(tokens, forward(p, 1), s, e.op) {
                    if p2 > p {
                        lemma_parse_func_tail_takes_symbols(tokens, p2, obj);
                        if let Ok((item, p3)) = parse_func_tail(tokens, p2, obj) {
                            if p3 > p {
                                lemma_parse_expr_takes_symbols(tokens, p3, end, with_elem(e, item));
                            }
                        }
                    }
                }
            },
            BlockView::Operator(_) => {
                lemma_parse_operator_takes_symbols(tokens, p, end, e, tok);
            },
            _ => {
                lemma_parse_expr_takes_symbols(tokens, forward(p, 1), end, e);
            },
        }
    }
}

/// Binding an operator makes no function with a parameter that is no symbol.
proof fn lemma_parse_operator_takes_symbols(
    tokens: Seq<TokenView>,
    p: usize,
    end: Seq<TokenView>,
    e: ExpressionView,
    tok: TokenView,
)
    requires
        tokens.len() <= usize::MAX,
        expression_takes_symbols(e),
    ensures
        parse_operator(tokens, p, end, e, tok) matches Ok((x, _)) ==> expression_takes_symbols(x),
    decreases remaining(tokens, p), 3 * op_rank(e) + 1, 0nat,
{
    if p >= tokens.len() {
    } else if e.op is Null {
        if tok is FuncReturn {
            lemma_parse_expr_takes_symbols(tokens, forward(p, 1), end, fresh());
            if let Ok((x, _)) = parse_expr(tokens, forward(p, 1), end, fresh()) {
                lemma_to_block_takes_symbols(x);
            }
        } else {
            lemma_parse_expr_takes_symbols(tokens, forward(p, 1), end, with_op(e, tok));
        }
    } else if e.op == BlockView::Operator(TokenView::Assign) {
        lemma_parse_secondary_takes_symbols(tokens, p, end, e);
    } else if tok is Assign {
        lemma_as_child_takes_symbols(e);
        if let Ok(e1) = as_child(e) {
            lemma_parse_expr_takes_symbols(tokens, forward(p, 1), end, fresh());
            if let Ok((rhs, _)) = parse_expr(tokens, forward(p, 1), end, fresh()) {
                lemma_with_item_takes_symbols(e1.elems, rhs);
            }
        }
    } else if (e.op == BlockView::Operator(TokenView::FuncCall) && tok is FuncCall)
        || (!(tok is Index) && tok is Comparison) || chains(e, tok) {
        if e.elems.len() != 0 {
            lemma_as_child_takes_symbols(e);
            if let Ok(e1) = as_child(e) {
                lemma_parse_expr_takes_symbols(tokens, forward(p, 1), end, with_op(e1, tok));
            }
        }
    } else if tok is Index {
        if e.elems.len() != 0 {
            let ex = ExpressionView { op: BlockView::Operator(tok), elems: seq![e.elems.last()] };
            assert(blocks_take_symbols(seq![e.elems.last()]));
            lemma_parse_expr_takes_symbols(tokens, forward(p, 2), seq![TokenView::ScopeEnd(']')], ex);
            if let Ok((x, _)) = parse_expr(
                tokens,
                forward(p, 2),
                seq![TokenView::ScopeEnd(']')],
                ex,
            ) {
                lemma_to_block_takes_symbols(x);
            }
        }
    } else {
        lemma_parse_secondary_takes_symbols(tokens, p, end, e);
    }
}

/// Letting an operator bind the last operand makes no function without a
/// parameter list.
proof fn lemma_parse_secondary_takes_symbols(
    tokens: Seq<TokenView>,
    p: usize,
    end: Seq<TokenView>,
    e: ExpressionView,
)
    requires
        tokens.len() <= usize::MAX,
        expression_takes_symbols(e),
    ensures
        parse_secondary(tokens, p, end, e) matches Ok((x, _)) ==> expression_takes_symbols(x),
    decreases remaining(tokens, p), 3 * op_rank(e), 0nat,
{
    if !(e.op is Null) {
        let seed = if e.elems.len() > 0 {
            ExpressionView { op: BlockView::Null, elems: seq![e.elems.last()] }
        } else {
            fresh()
        };
        let rest = if e.elems.len() > 0 {
            e.elems.drop_last()
        } else {
            e.elems
        };
        if e.elems.len() > 0 {
            assert(blocks_take_symbols(seq![e.elems.last()]));
        }
        lemma_parse_expr_takes_symbols(tokens, p, end, seed);
        if let Ok((x, _)) = parse_expr(tokens, p, end, seed) {
            lemma_with_item_takes_symbols(rest, x);
        }
    }
}

/// Parsing the statements of a scope makes no function with a
/// parameter that is no symbol.
proof fn lemma_parse_scope_takes_symbols(
    tokens: Seq<TokenView>,
    p: usize,
    end: Seq<TokenView>,
    acc: Seq<ExpressionView>,
)
    requires
        tokens.len() <= usize::MAX,
        expressions_take_symbols(acc),
    ensures
        parse_scope(tokens, p, end, acc) matches Ok((body, _)) ==> expressions_take_symbols(body),
    decreases remaining(tokens, p), 6nat, 0nat,
{
    let cur = token_at(tokens, p as int);
    if peek_in(cur, end) || cur is None {
    } else if cur == Some(TokenView::NewLine) {
        lemma_parse_scope_takes_symbols(tokens, forward(p, 1), end, acc);
    } else {
        lemma_parse_expr_takes_symbols(tokens, p, end.push(TokenView::Separator), fresh());
        if let Ok((x, p2)) = parse_expr(tokens, p, end.push(TokenView::Separator), fresh()) {
            let acc2 = if x.elems.len() > 0 {
                acc.push(x)
            } else {
                acc
            };
            if !peek_in(token_at(tokens, p2 - 1), end) && p2 > p {
                lemma_parse_scope_takes_symbols(tokens, p2, end, acc2);
            }
        }
    }
}

/// Parsing the elements of a list makes no function with a
/// parameter that is no symbol.
proof fn lemma_parse_items_takes_symbols(
    tokens: Seq<TokenView>,
    p: usize,
    n: nat,
    acc: Seq<BlockView>,
)
    requires
        tokens.len() <= usize::MAX,
        blocks_take_symbols(acc),
    ensures
        parse_items(tokens, p, n, acc) matches Ok((items, _)) ==> blocks_take_symbols(items),
    decreases remaining(tokens, p), 6nat, n,
{
    if n != 0 {
        lemma_parse_expr_takes_symbols(tokens, p, seq![TokenView::List], fresh());
        if let Ok((x, p2)) = parse_expr(tokens, p, seq![TokenView::List], fresh()) {
            lemma_with_item_takes_symbols(acc, x);
            if let Ok(acc2) = with_item(acc, x) {
                if p2 >= p {
                    lemma_parse_items_takes_symbols(tokens, p2, (n - 1) as nat, acc2);
                }
            }
        }
    }
}

/// Parsing a group makes no function with a parameter that is no symbol.
proof fn lemma_parse_group_takes_symbols(tokens: Seq<TokenView>, p: usize, s: char, op: BlockView)
    requires
        tokens.len() <= usize::MAX,
    ensures
        parse_group(tokens, p, s, op) matches Ok((b, _)) ==> functions_take_symbols(b),
    decreases remaining(tokens, p), 7nat, 0nat,
{
    let closing = if s == '[' {
        seq![TokenView::ScopeEnd(']')]
    } else {
        seq![TokenView::ScopeEnd(')')]
    };
    let count = count_elems(tokens, p as int, 0, 0);
    if s == '{' {
        lemma_parse_scope_takes_symbols(tokens, p, seq![TokenView::ScopeEnd('}')], Seq::empty());
    } else if (s == '[' && op == BlockView::Operator(TokenView::Index)) || (s == '(' && count
        == 1) {
        lemma_parse_expr_takes_symbols(tokens, p, closing, fresh());
        if let Ok((x, _)) = parse_expr(tokens, p, closing, fresh()) {
            lemma_to_block_takes_symbols(x);
        }
    } else if s == '(' {
        let n = if count == 0 {
            0
        } else {
            (count - 1) as nat
        };
        lemma_parse_items_takes_symbols(tokens, p, n, Seq::empty());
        if let Ok((items, p2)) = parse_items(tokens, p, n, Seq::empty()) {
            if p2 >= p {
                lemma_parse_expr_takes_symbols(tokens, p2, closing, fresh());
                if let Ok((x, _)) = parse_expr(tokens, p2, closing, fresh()) {
                    lemma_with_item_takes_symbols(items, x);
                }
            }
        }
    }
}

/// Turning a group into a function makes no function with a
/// parameter that is no symbol.
proof fn lemma_parse_func_tail_takes_symbols(tokens: Seq<TokenView>, p: usize, obj: BlockView)
    requires
        tokens.len() <= usize::MAX,
        functions_take_symbols(obj),
    ensures
        parse_func_tail(tokens, p, obj) matches Ok((b, _)) ==> functions_take_symbols(b),
    decreases remaining(tokens, p), 7nat, 0nat,
{
    let p3 = forward(p, 1);
    if token_at(tokens, p as int) == Some(TokenView::FuncDef) && token_at(tokens, p3 as int)
        is Some {
        let body = if token_at(tokens, p3 as int) == Some(TokenView::ScopeStart('{')) {
            let end = seq![TokenView::ScopeEnd('}')];
            lemma_parse_scope_takes_symbols(tokens, forward(p3, 1), end, Seq::empty());
            match parse_scope(tokens, forward(p3, 1), end, Seq::empty()) {
                Ok((stmts, _)) => Some(BlockView::FuncBody(stmts)),
                Err(_) => None,
            }
        } else {
            lemma_parse_expr_takes_symbols(tokens, p3, seq![TokenView::Separator], fresh());
            match parse_expr(tokens, p3, seq![TokenView::Separator], fresh()) {
                Ok((x, _)) => Some(BlockView::FuncBody(seq![x])),
                Err(_) => None,
            }
        };
        if let Some(b) = body {
            lemma_to_block_takes_symbols(
                ExpressionView {
                    op: BlockView::Operator(TokenView::FuncDef),
                    elems: seq![obj, b],
                },
            );
        }
    }
}

/// In whatever the parser makes of any tokens, every function has a list of
/// symbols as its parameters: a lone parameter makes a list of one.
pub proof fn law_parsed_functions_take_symbols(tokens: Seq<TokenView>, p: usize)
    requires
        tokens.len() <= usize::MAX,
    ensures
        parse_view(tokens, p) matches Ok(exprs) ==> expressions_take_symbols(exprs),
{
    lemma_parse_scope_takes_symbols(tokens, p, Seq::empty(), Seq::empty());
}

/// Whether `b` can be assigned to: a symbol, or an expression (which
/// evaluation takes for an element or a member of a name).
pub open spec fn is_target(b: BlockView) -> bool {
    (b is Object && b->Object_0 is Symbol) || b is Expr
}

/// Assigning succeeds only to a target.
proof fn lemma_assigned_is_target(w: World, key: BlockView, value: BlockView, depth: nat)
    ensures
        assign_view(w, key, value, depth) matches Step::Done(Ok(_), _) ==> is_target(key),
{
}

/// Binding parameters succeeds only where each parameter that gets an
/// argument is a target.
proof fn lemma_bound_parameters_are_targets(
    frame: World,
    params: Seq<BlockView>,
    actual: Seq<BlockView>,
    i: int,
    depth: nat,
)
    requires
        0 <= i,
    ensures
        bind_params_view(frame, params, actual, i, depth) matches Step::Done(Ok(_), _) ==> forall|
            k: int,
        |
            i <= k < actual.len() && k < params.len() ==> is_target(#[trigger] params[k]),
    decreases actual.len() - i,
{
    if i < actual.len() && i < params.len() {
        lemma_assigned_is_target(frame, params[i], actual[i], depth);
        if let Step::Done(Ok(_), st) = assign_view(frame, params[i], actual[i], depth) {
            lemma_bound_parameters_are_targets(frame.with(st), params, actual, i + 1, depth);
        }
    }
}

/// A function can be applied with success only if each of its parameters
/// is a target of assignment: a symbol, or an expression.
pub proof fn law_applied_functions_take_targets(
    w: World,
    f: FuncDefView,
    args: BlockView,
    depth: nat,
    called: Option<Seq<char>>,
)
    ensures
        apply_view(w, f, args, depth, called) matches Step::Done(Ok(_), _) ==> forall|k: int|
            0 <= k < formal_params(f.args).len() ==> is_target(#[trigger] formal_params(f.args)[k]),
{
    if depth > 0 {
        lemma_bound_parameters_are_targets(
            w.child(Seq::empty(), None),
            formal_params(f.args),
            actual_args(args),
            0,
            (depth - 1) as nat,
        );
    }
}

/// Arithmetic groups from left to right: an arithmetic operator that
/// follows an arithmetic expression with both its operands, and is of the
/// level of its operator or of a lower one, takes that whole expression as
/// its left operand.
pub proof fn law_arithmetic_groups_left(
    tokens: Seq<TokenView>,
    p: usize,
    end: Seq<TokenView>,
    e: ExpressionView,
    tok: TokenView,
)
    requires
        p < tokens.len() <= usize::MAX,
        chains(e, tok),
    ensures
        parse_operator(tokens, p, end, e, tok) == parse_expr(
            tokens,
            forward(p, 1),
            end,
            ExpressionView { op: BlockView::Operator(tok), elems: seq![BlockView::Expr(Box::new(e))] },
        ),
{
    assert(with_op(ExpressionView { op: e.op, elems: seq![BlockView::Expr(Box::new(e))] }, tok)
        == ExpressionView { op: BlockView::Operator(tok), elems: seq![BlockView::Expr(Box::new(e))] });
}

/// A group in parentheses with one element is that element, not a list of
/// it: its block is the block of the expression between the parentheses.
/// With any other number of elements it is a list.
pub proof fn law_group_of_one_is_no_list(tokens: Seq<TokenView>, p: usize, op: BlockView)
    requires
        tokens.len() <= usize::MAX,
    ensures
        parse_group(tokens, p, '(', op) matches Ok((b, _)) ==> if count_elems(
            tokens,
            p as int,
            0,
            0,
        ) == 1 {
            parse_expr(tokens, p, seq![TokenView::ScopeEnd(')')], fresh()) matches Ok((x, _))
                && to_block_view(x) == Ok::<BlockView, Seq<char>>(b)
        } else {
            b is List
        },
{
}

/// From index `i` on, a window of blanks only trims to nothing.
proof fn lemma_skip_blanks_all(w: Seq<char>, i: int)
    requires
        0 <= i <= w.len(),
        forall|k: int| 0 <= k < w.len() ==> is_blank(#[trigger] w[k]),
    ensures
        skip_blanks(w, i) == w.len(),
    decreases w.len() - i,
{
    if i < w.len() {
        lemma_skip_blanks_all(w, i + 1);
    }
}

/// A text of blanks only trims to the empty text.
pub proof fn lemma_trim_blanks(w: Seq<char>)
    requires
        forall|k: int| 0 <= k < w.len() ==> is_blank(#[trigger] w[k]),
    ensures
        trim_view(w) == Seq::<char>::empty(),
{
    lemma_skip_blanks_all(w, 0);
}

/// Scanning blanks from index `i` on adds no token.
proof fn lemma_lex_blanks(code: Seq<char>, i: int, word: Seq<char>, out: Seq<TokenView>)
    requires
        0 <= i <= code.len(),
        forall|k: int| 0 <= k < code.len() ==> is_blank(#[trigger] code[k]),
        forall|k: int| 0 <= k < word.len() ==> is_blank(#[trigger] word[k]),
    ensures
        lex_from(code, i, word, out) == Ok::<Seq<TokenView>, Seq<char>>(out),
    decreases code.len() - i,
{
    if i >= code.len() {
        lemma_trim_blanks(word);
    } else {
        let grown = word.push(code[i]);
        assert forall|k: int| 0 <= k < grown.len() implies is_blank(#[trigger] grown[k]) by {}
        lemma_trim_blanks(grown);
        assert(vstd::utf8::encode_utf8(Seq::<char>::empty()).len() == 0);
        lemma_lex_blanks(code, i + 1, grown, out);
    }
}

/// A source of spaces and tabs only has no tokens; no tokens parse to no
/// expressions; and no expressions run to null, leaving the namespace as it
/// was.
pub proof fn law_blank_source_is_empty(code: Seq<char>, w: World, depth: nat)
    requires
        forall|k: int| 0 <= k < code.len() ==> is_blank(#[trigger] code[k]),
    ensures
        lex_view(code) == Ok::<Seq<TokenView>, Seq<char>>(Seq::<TokenView>::empty()),
        parse_view(Seq::<TokenView>::empty(), 0) == Ok::<Seq<ExpressionView>, Seq<char>>(
            Seq::<ExpressionView>::empty(),
        ),
        run_view(w, Seq::<ExpressionView>::empty(), 0, BlockView::Null, depth) == ok(
            BlockView::Null,
            w,
        ),
{
    lemma_lex_blanks(code, 0, Seq::empty(), Seq::empty());
}

/// Running the statements `a + b` from index `a.len() + j` on is running
/// `b` from index `j` on.
proof fn lemma_run_shift(
    w: World,
    a: Seq<ExpressionView>,
    b: Seq<ExpressionView>,
    j: int,
    last: BlockView,
    depth: nat,
)
    requires
        0 <= j <= b.len(),
    ensures
        run_view(w, a + b, a.len() + j, last, depth) == run_view(w, b, j, last, depth),
    decreases b.len() - j,
{
    if j < b.len() {
        match solve_view(w, b[j], depth) {
            Step::Done(Ok(v), vars) => {
                lemma_run_shift(w.with(vars), a, b, j + 1, v, depth);
            },
            _ => {},
        }
    }
}

/// What running `a` from index `i` on and then `b` gives: the run of `b` in
/// the namespace that `a` left, where `a` succeeds.
pub open spec fn run_then(
    w: World,
    a: Seq<ExpressionView>,
    i: int,
    last: BlockView,
    b: Seq<ExpressionView>,
    depth: nat,
) -> Step {
    match run_view(w, a, i, last, depth) {
        Step::Done(Ok(v), vars) => run_view(w.with(vars), b, 0, v, depth),
        other => other,
    }
}

/// Running `a + b` from an index `i` inside `a` is running `a` from `i` and
/// then `b`, where `a` holds no return statement.
proof fn lemma_run_concat_from(
    w: World,
    a: Seq<ExpressionView>,
    b: Seq<ExpressionView>,
    i: int,
    last: BlockView,
    depth: nat,
)
    requires
        0 <= i <= a.len(),
        forall|k: int|
            0 <= k < a.len() ==> (#[trigger] a[k]).op != BlockView::Operator(
                TokenView::FuncReturn,
            ),
    ensures
        run_view(w, a + b, i, last, depth) == run_then(w, a, i, last, b, depth),
    decreases a.len() - i,
{
    if i == a.len() {
        lemma_run_shift(w, a, b, 0, last, depth);
    } else {
        match solve_view(w, a[i], depth) {
            Step::Done(Ok(v), vars) => {
                lemma_run_concat_from(w.with(vars), a, b, i + 1, v, depth);
            },
            _ => {},
        }
    }
}

/// What running `a` and then, on its own, `b` gives: the run of `b` in the
/// namespace that `a` left, where `a` succeeds.
pub open spec fn run_twice(
    w: World,
    a: Seq<ExpressionView>,
    b: Seq<ExpressionView>,
    depth: nat,
) -> Step {
    match run_view(w, a, 0, BlockView::Null, depth) {
        Step::Done(Ok(_), vars) => run_view(w.with(vars), b, 0, BlockView::Null, depth),
        other => other,
    }
}

/// Statements run in sequence: running `a` followed by `b` is running `a`
/// and then, in the namespace it left, `b`. This holds where `a` has no
/// return statement, which would end the run. Where `b` is not empty, the
/// run of `b` is a run of its own, as that of a second call ([`run_twice`]);
/// an empty `b` leaves the value of `a`, where a run of its own gives null.
pub proof fn law_run_in_sequence(
    w: World,
    a: Seq<ExpressionView>,
    b: Seq<ExpressionView>,
    depth: nat,
)
    requires
        forall|k: int|
            0 <= k < a.len() ==> (#[trigger] a[k]).op != BlockView::Operator(
                TokenView::FuncReturn,
            ),
    ensures
        run_view(w, a + b, 0, BlockView::Null, depth) == run_then(
            w,
            a,
            0,
            BlockView::Null,
            b,
            depth,
        ),
        b.len() > 0 ==> run_view(w, a + b, 0, BlockView::Null, depth) == run_twice(w, a, b, depth),
{
    lemma_run_concat_from(w, a, b, 0, BlockView::Null, depth);
}

/// Resolving elements that each leave the bindings alone, from index `i`
/// on, appends their values.
proof fn lemma_resolve_all_pure(
    w: World,
    items: Seq<BlockView>,
    vals: Seq<BlockView>,
    i: int,
    depth: nat,
)
    requires
        0 <= i <= items.len(),
        vals.len() == items.len(),
        forall|k: int|
            0 <= k < items.len() ==> #[trigger] resolve_view(w, items[k], depth) == ok(vals[k], w),
    ensures
        resolve_all_view(w, items, i, vals.subrange(0, i), depth) == ok(BlockView::List(vals), w),
    decreases items.len() - i,
{
    if i == items.len() {
        assert(vals.subrange(0, i) =~= vals);
    } else {
        assert(resolve_view(w, items[i], depth) == ok(vals[i], w));
        assert(vals.subrange(0, i).push(vals[i]) =~= vals.subrange(0, i + 1));
        lemma_resolve_all_pure(w, items, vals, i + 1, depth);
    }
}

/// A list resolves element by element: where each element resolves to a
/// value and leaves the bindings alone, the list resolves to the list of
/// those values.
pub proof fn law_resolve_list_elementwise(
    w: World,
    items: Seq<BlockView>,
    vals: Seq<BlockView>,
    depth: nat,
)
    requires
        vals.len() == items.len(),
        forall|k: int|
            0 <= k < items.len() ==> #[trigger] resolve_view(w, items[k], depth) == ok(vals[k], w),
    ensures
        resolve_view(w, BlockView::List(items), depth) == ok(BlockView::List(vals), w),
{
    lemma_resolve_all_pure(w, items, vals, 0, depth);
    assert(vals.subrange(0, 0) =~= Seq::<BlockView>::empty());
}

/// The world in which the element at index `k` of `items` is resolved: `w`
/// as the elements before it have left it, each resolved in its turn.
/// `None` where one of them does not resolve to a value.
pub open spec fn world_at(w: World, items: Seq<BlockView>, k: int, depth: nat) -> Option<World>
    decreases k,
{
    if k <= 0 {
        Some(w)
    } else {
        match world_at(w, items, k - 1, depth) {
            Some(v) => match resolve_view(v, items[k - 1], depth) {
                Step::Done(Ok(_), st) => Some(v.with(st)),
                _ => None,
            },
            None => None,
        }
    }
}

/// Whether the element at index `k` of `items`, resolved in its turn
/// ([`world_at`]), gives the value `x`.
pub open spec fn resolved_at(
    w: World,
    items: Seq<BlockView>,
    k: int,
    depth: nat,
    x: BlockView,
) -> bool {
    world_at(w, items, k, depth) matches Some(v) && resolve_view(v, items[k], depth) matches Step::Done(
        Ok(y),
        _,
    ) && y == x
}

/// Resolving the elements from index `i` on appends the value of each,
/// resolved in its turn.
proof fn lemma_resolve_all_in_turn(
    w: World,
    items: Seq<BlockView>,
    i: int,
    acc: Seq<BlockView>,
    depth: nat,
)
    requires
        0 <= i <= items.len(),
        acc.len() == i,
        world_at(w, items, i, depth) is Some,
        forall|k: int| 0 <= k < i ==> #[trigger] resolved_at(w, items, k, depth, acc[k]),
    ensures
        resolve_all_view(world_at(w, items, i, depth)->Some_0, items, i, acc, depth) matches Step::Done(
            Ok(v),
            st,
        ) ==> v is List && v->List_0.len() == items.len() && (forall|k: int|
            0 <= k < items.len() ==> #[trigger] resolved_at(w, items, k, depth, v->List_0[k]))
            && world_at(w, items, items.len() as int, depth) is Some && world_at(
            w,
            items,
            items.len() as int,
            depth,
        )->Some_0.state() == st,
    decreases items.len() - i,
{
    let here = world_at(w, items, i, depth)->Some_0;
    if i < items.len() {
        match resolve_view(here, items[i], depth) {
            Step::Done(Ok(x), st) => {
                let next = acc.push(x);
                assert(world_at(w, items, i + 1, depth) == Some(here.with(st)));
                assert forall|k: int| 0 <= k < i + 1 implies #[trigger] resolved_at(
                    w,
                    items,
                    k,
                    depth,
                    next[k],
                ) by {
                    if k < i {
                        assert(resolved_at(w, items, k, depth, acc[k]));
                    }
                }
                lemma_resolve_all_in_turn(w, items, i + 1, next, depth);
            },
            _ => {},
        }
    }
}

/// A list resolves element by element, from left to right: where it
/// resolves to a value, that value is a list as long, each element of which
/// is what the element at its place resolves to in the world that the
/// elements before it have left.
pub proof fn law_resolve_list_in_turn(w: World, items: Seq<BlockView>, depth: nat)
    ensures
        resolve_view(w, BlockView::List(items), depth) matches Step::Done(Ok(v), st) ==> v is List
            && v->List_0.len() == items.len() && (forall|k: int|
            0 <= k < items.len() ==> #[trigger] resolved_at(w, items, k, depth, v->List_0[k]))
            && world_at(w, items, items.len() as int, depth) is Some && world_at(
            w,
            items,
            items.len() as int,
            depth,
        )->Some_0.state() == st,
{
    lemma_resolve_all_in_turn(w, items, 0, Seq::empty(), depth);
}

/// A text with a prefix put before it starts with the prefix, and one with
/// a suffix put after it ends with the suffix and starts as it did.
proof fn lemma_affixes(s: Seq<char>, prefix: Seq<char>, suffix: Seq<char>)
    ensures
        starts_with(with_prefix(s, prefix), prefix),
        ends_with(with_suffix(s, suffix), suffix),
        starts_with(s, prefix) ==> starts_with(with_suffix(s, suffix), prefix),
{
    assert((prefix + s).subrange(0, prefix.len() as int) =~= prefix);
    assert((s + suffix).subrange(s.len() as int, (s.len() + suffix.len()) as int) =~= suffix);
    if starts_with(s, prefix) {
        assert((s + suffix).subrange(0, prefix.len() as int) =~= s.subrange(
            0,
            prefix.len() as int,
        ));
    }
}

/// Naming a library is idempotent: the name of a library is its own
/// library name, on every platform.
pub proof fn law_native_name_is_idempotent(fname: Seq<char>, platform: Platform)
    ensures
        native_name(native_name(fname, platform), platform) == native_name(fname, platform),
{
    match platform {
        Platform::Windows => {
            lemma_affixes(fname, Seq::empty(), ".dll"@);
        },
        Platform::MacOs => {
            lemma_affixes(fname, "lib"@, ".dylib"@);
            lemma_affixes(with_prefix(fname, "lib"@), "lib"@, ".dylib"@);
        },
        Platform::Other => {
            lemma_affixes(fname, "lib"@, ".so"@);
            lemma_affixes(with_prefix(fname, "lib"@), "lib"@, ".so"@);
        },
    }
}

/// The tag that `type` gives any value starts with `<` and ends with `>`.
pub proof fn law_type_tag_is_bracketed(v: BlockView)
    ensures
        type_tag(v).len() >= 2,
        type_tag(v).first() == '<',
        type_tag(v).last() == '>',
{
    reveal_strlit("<Text>");
    reveal_strlit("<Number>");
    reveal_strlit("<Func>");
    reveal_strlit("<NativeFunc>");
    reveal_strlit("<List>");
    reveal_strlit("<Bool>");
    reveal_strlit("<Expr>");
    reveal_strlit("<FuncBody>");
    reveal_strlit("<Module>");
    reveal_strlit("<Null>");
    reveal_strlit("<Type Not Found>");
}

/// Mapping a function over items from index `i` on, where it succeeds,
/// gives a list with one value more for each item.
proof fn lemma_map_length(
    w: World,
    func: BlockView,
    items: Seq<BlockView>,
    i: int,
    acc: Seq<BlockView>,
    depth: nat,
)
    requires
        0 <= i <= items.len(),
    ensures
        map_view(w, func, items, i, acc, depth) matches Step::Done(Ok(v), _) ==> v is List
            && v->List_0.len() == acc.len() + items.len() - i,
    decreases items.len() - i,
{
    if i < items.len() {
        match call_view(w, func, items[i], depth, None) {
            Step::Done(Ok(v), vars) => {
                lemma_map_length(w.with(vars), func, items, i + 1, acc.push(v), depth);
            },
            _ => {},
        }
    }
}

/// `foreach` preserves length: where it succeeds, its value is a list with
/// as many elements as the list, or as the text has characters, that it was
/// given, so that `len` gives the same number for both.
pub proof fn law_foreach_preserves_length(w: World, args: Seq<BlockView>, depth: nat)
    ensures
        foreach_view(w, args, depth) matches Step::Done(Ok(v), _) ==> v is List && match args[0] {
            BlockView::List(l) => v->List_0.len() == l.len(),
            BlockView::Object(TokenView::Text(t)) => v->List_0.len() == t.len(),
            _ => false,
        } && len_view(seq![v]) == len_view(seq![args[0]]),
{
    if args.len() == 2 && (args[1] is Func || args[1] is NativeFunc) && depth > 0 {
        match args[0] {
            BlockView::List(l) => {
                lemma_map_length(w, args[1], l, 0, Seq::empty(), (depth - 1) as nat);
            },
            BlockView::Object(TokenView::Text(t)) => {
                lemma_map_length(w, args[1], char_texts(t), 0, Seq::empty(), (depth - 1) as nat);
            },
            _ => {},
        }
    }
}

/// `if` picks its second argument on true and its third on false, whatever
/// they are.
pub proof fn law_if_picks_a_branch(a: BlockView, b: BlockView)
    ensures
        if_view(seq![BlockView::Bool(true), a, b]) == Ok::<BlockView, Failure>(a),
        if_view(seq![BlockView::Bool(false), a, b]) == Ok::<BlockView, Failure>(b),
{
}

/// Indexing is zero-based: index zero yields the first element, the length
/// less one the last, and any index from the length on is an evaluation
/// error.
pub proof fn law_index_is_zero_based(list: Seq<BlockView>, i: int)
    ensures
        list.len() > 0 ==> pick_at(BlockView::List(list), 0) == Ok::<BlockView, Failure>(
            list.first(),
        ),
        list.len() > 0 ==> pick_at(BlockView::List(list), list.len() - 1) == Ok::<
            BlockView,
            Failure,
        >(list.last()),
        i >= list.len() ==> pick_at(BlockView::List(list), i) == Err::<BlockView, Failure>(
            eval_failure("list index out of range"@),
        ),
{
}

/// Indexing by a number is indexing by the index that the number stands
/// for; a number that stands for none, as one below zero does, is an
/// evaluation error.
pub proof fn law_index_by_number(things: BlockView, n: u64)
    ensures
        index_view(n) matches Some(i) ==> pick_index_view(
            BlockView::Object(TokenView::Number(n)),
            things,
        ) == pick_at(things, i),
        index_view(n) is None ==> pick_index_view(BlockView::Object(TokenView::Number(n)), things)
            == Err::<BlockView, Failure>(eval_failure("index out of range"@)),
{
}

/// The world `w` with `p` written before all that it holds as written.
pub open spec fn preceded(w: World, p: Seq<PieceView>) -> World {
    World { ns: w.ns, written: p + w.written }
}

/// The step `step` with `p` written before all that it leaves as written.
pub open spec fn step_preceded(step: Step, p: Seq<PieceView>) -> Step {
    match step {
        Step::Hosted(sofar) => Step::Hosted(p + sofar),
        Step::Done(r, st) => Step::Done(r, State { vars: st.vars, written: p + st.written }),
    }
}

/// Resolving does not look at what was written.
proof fn lemma_resolve_written(w: World, b: BlockView, depth: nat, p: Seq<PieceView>)
    ensures
        resolve_view(preceded(w, p), b, depth) == step_preceded(resolve_view(w, b, depth), p),
    decreases depth, b, 0nat,
{
    match b {
        BlockView::Expr(e) => {
            lemma_solve_written(w, *e, depth, p);
        },
        BlockView::List(items) => {
            lemma_resolve_all_written(w, items, 0, Seq::empty(), depth, p);
        },
        BlockView::ModBody(body) => {
            lemma_run_written(w.child(Seq::empty(), None), body, 0, BlockView::Null, depth, p);
            assert(preceded(w, p).child(Seq::empty(), None) == preceded(
                w.child(Seq::empty(), None),
                p,
            ));
        },
        _ => {},
    }
}

/// Resolving several blocks does not look at what was written.
proof fn lemma_resolve_all_written(
    w: World,
    items: Seq<BlockView>,
    i: int,
    acc: Seq<BlockView>,
    depth: nat,
    p: Seq<PieceView>,
)
    ensures
        resolve_all_view(preceded(w, p), items, i, acc, depth) == step_preceded(
            resolve_all_view(w, items, i, acc, depth),
            p,
        ),
    decreases depth, items, items.len() - i,
{
    if 0 <= i < items.len() {
        lemma_resolve_written(w, items[i], depth, p);
        if let Step::Done(Ok(v), st) = resolve_view(w, items[i], depth) {
            lemma_resolve_all_written(w.with(st), items, i + 1, acc.push(v), depth, p);
            assert(preceded(w.with(st), p) == preceded(w, p).with(
                State { vars: st.vars, written: p + st.written },
            ));
        }
    }
}

/// Running statements does not look at what was written.
proof fn lemma_run_written(
    w: World,
    body: Seq<ExpressionView>,
    i: int,
    last: BlockView,
    depth: nat,
    p: Seq<PieceView>,
)
    ensures
        run_view(preceded(w, p), body, i, last, depth) == step_preceded(
            run_view(w, body, i, last, depth),
            p,
        ),
    decreases depth, body, body.len() - i,
{
    if 0 <= i < body.len() {
        lemma_solve_written(w, body[i], depth, p);
        if let Step::Done(Ok(v), st) = solve_view(w, body[i], depth) {
            if body[i].op != BlockView::Operator(TokenView::FuncReturn) {
                lemma_run_written(w.with(st), body, i + 1, v, depth, p);
                assert(preceded(w.with(st), p) == preceded(w, p).with(
                    State { vars: st.vars, written: p + st.written },
                ));
            }
        }
    }
}

/// Assigning does not look at what was written.
proof fn lemma_assign_written(
    w: World,
    key: BlockView,
    value: BlockView,
    depth: nat,
    p: Seq<PieceView>,
)
    ensures
        assign_view(preceded(w, p), key, value, depth) == step_preceded(
            assign_view(w, key, value, depth),
            p,
        ),
    decreases depth, value, 1nat,
{
    lemma_resolve_written(w, value, depth, p);
}

/// Arithmetic does not look at what was written.
proof fn lemma_arith_written(
    w: World,
    op: char,
    elems: Seq<BlockView>,
    i: int,
    acc: Option<u64>,
    depth: nat,
    p: Seq<PieceView>,
)
    ensures
        arith_view(preceded(w, p), op, elems, i, acc, depth) == step_preceded(
            arith_view(w, op, elems, i, acc, depth),
            p,
        ),
    decreases depth, elems, elems.len() - i,
{
    if 0 <= i < elems.len() {
        lemma_resolve_written(w, elems[i], depth, p);
        if let Step::Done(Ok(v), st) = resolve_view(w, elems[i], depth) {
            if let Some(n) = number_of(v) {
                lemma_arith_written(
                    w.with(st),
                    op,
                    elems,
                    i + 1,
                    Some(fold_number(acc, op, n)),
                    depth,
                    p,
                );
                assert(preceded(w.with(st), p) == preceded(w, p).with(
                    State { vars: st.vars, written: p + st.written },
                ));
            }
        }
    }
}

/// Solving an expression does not look at what was written.
proof fn lemma_solve_written(w: World, e: ExpressionView, depth: nat, p: Seq<PieceView>)
    ensures
        solve_view(preceded(w, p), e, depth) == step_preceded(solve_view(w, e, depth), p),
    decreases depth, e, 1nat,
{
    match e.op {
        BlockView::Operator(TokenView::Assign) => {
            if e.elems.len() == 2 {
                lemma_assign_written(w, e.elems[0], e.elems[1], depth, p);
            }
        },
        BlockView::Operator(TokenView::Arith(op)) => {
            if e.elems.len() == 2 {
                lemma_arith_written(w, op, e.elems, 0, None, depth, p);
            }
        },
        BlockView::Operator(TokenView::Comparison(_)) => {
            if e.elems.len() == 2 {
                lemma_resolve_all_written(w, e.elems, 0, Seq::empty(), depth, p);
            }
        },
        BlockView::Operator(TokenView::FuncCall) => {
            lemma_solve_call_written(w, e, depth, p);
        },
        BlockView::Operator(TokenView::FuncReturn) | BlockView::Operator(TokenView::List) => {
            lemma_resolve_all_written(w, e.elems, 0, Seq::empty(), depth, p);
        },
        BlockView::Operator(TokenView::Index) => {
            if e.elems.len() == 2 {
                lemma_resolve_written(w, e.elems[0], depth, p);
                if let Step::Done(Ok(_), st) = resolve_view(w, e.elems[0], depth) {
                    lemma_resolve_written(w.with(st), e.elems[1], depth, p);
                    assert(preceded(w.with(st), p) == preceded(w, p).with(
                        State { vars: st.vars, written: p + st.written },
                    ));
                }
            }
        },
        BlockView::Operator(TokenView::Accessor) => {
            lemma_solve_access_written(w, e, depth, p);
        },
        _ => {},
    }
}

/// Solving an accessor does not look at what was written.
proof fn lemma_solve_access_written(w: World, e: ExpressionView, depth: nat, p: Seq<PieceView>)
    ensures
        solve_access_view(preceded(w, p), e, depth) == step_preceded(
            solve_access_view(w, e, depth),
            p,
        ),
    decreases depth, e, 0nat,
{
    if e.elems.len() == 2 {
        lemma_resolve_written(w, e.elems[0], depth, p);
        if let Step::Done(Ok(BlockView::Mod(m)), st) = resolve_view(w, e.elems[0], depth) {
            if let BlockView::Expr(x) = e.elems[1] {
                if x.op != BlockView::Operator(TokenView::Assign) {
                    let inside = World {
                        ns: NameSpaceView {
                            module: m,
                            builtins: None,
                            parent: Some(Box::new(w.with(st).ns)),
                        },
                        written: st.written,
                    };
                    lemma_solve_written(inside, *x, depth, p);
                    assert(preceded(inside, p) == World {
                        ns: NameSpaceView {
                            module: m,
                            builtins: None,
                            parent: Some(
                                Box::new(
                                    preceded(w, p).with(
                                        State { vars: st.vars, written: p + st.written },
                                    ).ns,
                                ),
                            ),
                        },
                        written: p + st.written,
                    });
                }
            }
        }
    }
}

/// Solving a call does not look at what was written.
proof fn lemma_solve_call_written(w: World, e: ExpressionView, depth: nat, p: Seq<PieceView>)
    ensures
        solve_call_view(preceded(w, p), e, depth) == step_preceded(solve_call_view(w, e, depth), p),
    decreases depth, e, 0nat,
{
    if e.elems.len() >= 2 {
        match e.elems[0] {
            BlockView::Object(TokenView::Symbol(name)) => {
                if let Some(func) = w.ns.get(name) {
                    lemma_call_written(w, func, e.elems[1], depth, p, Some(name));
                }
            },
            BlockView::Func(_) => {
                lemma_call_written(w, e.elems[0], e.elems[1], depth, p, None);
            },
            BlockView::Expr(x) => {
                lemma_solve_written(w, *x, depth, p);
                if let Step::Done(Ok(func), st) = solve_view(w, *x, depth) {
                    lemma_call_written(w.with(st), func, e.elems[1], depth, p, None);
                    assert(preceded(w.with(st), p) == preceded(w, p).with(
                        State { vars: st.vars, written: p + st.written },
                    ));
                }
            },
            _ => {},
        }
    }
}

/// Calling does not look at what was written.
proof fn lemma_call_written(
    w: World,
    func: BlockView,
    args: BlockView,
    depth: nat,
    p: Seq<PieceView>,
    called: Option<Seq<char>>,
)
    ensures
        call_view(preceded(w, p), func, args, depth, called) == step_preceded(
            call_view(w, func, args, depth, called),
            p,
        ),
    decreases depth, args, 1nat,
{
    if depth > 0 {
        let below = (depth - 1) as nat;
        match func {
            BlockView::Func(f) => {
                lemma_apply_written(w, *f, args, depth, p, called);
            },
            BlockView::NativeFunc(name, origin) => {
                lemma_resolve_all_written(w, actual_args(args), 0, Seq::empty(), below, p);
                if let Step::Done(Ok(BlockView::List(clean)), st) = resolve_all_view(
                    w,
                    actual_args(args),
                    0,
                    Seq::empty(),
                    below,
                ) {
                    lemma_native_written(w.with(st), name, origin, clean, below, p);
                    assert(preceded(w.with(st), p) == preceded(w, p).with(
                        State { vars: st.vars, written: p + st.written },
                    ));
                }
            },
            _ => {},
        }
    }
}

/// Applying a function does not look at what was written.
proof fn lemma_apply_written(
    w: World,
    f: FuncDefView,
    args: BlockView,
    depth: nat,
    p: Seq<PieceView>,
    called: Option<Seq<char>>,
)
    ensures
        apply_view(preceded(w, p), f, args, depth, called) == step_preceded(
            apply_view(w, f, args, depth, called),
            p,
        ),
    decreases depth, args, 0nat,
{
    if depth > 0 {
        let below = (depth - 1) as nat;
        let actual = actual_args(args);
        let params = formal_params(f.args);
        if params.len() == actual.len() {
            let frame = w.child(Seq::empty(), None);
            assert(preceded(w, p).child(Seq::empty(), None) == preceded(frame, p));
            lemma_bind_params_written(frame, params, actual, 0, below, p);
            if let Step::Done(Ok(_), st) = bind_params_view(frame, params, actual, 0, below) {
                if let BlockView::FuncBody(body) = f.body {
                    lemma_run_written(frame.with(st), body, 0, BlockView::Null, below, p);
                    assert(preceded(frame.with(st), p) == preceded(frame, p).with(
                        State { vars: st.vars, written: p + st.written },
                    ));
                }
            }
        }
    }
}

/// Binding parameters does not look at what was written.
proof fn lemma_bind_params_written(
    frame: World,
    params: Seq<BlockView>,
    actual: Seq<BlockView>,
    i: int,
    depth: nat,
    p: Seq<PieceView>,
)
    ensures
        bind_params_view(preceded(frame, p), params, actual, i, depth) == step_preceded(
            bind_params_view(frame, params, actual, i, depth),
            p,
        ),
    decreases depth, actual, actual.len() - i + 2,
{
    if 0 <= i < actual.len() && i < params.len() {
        lemma_assign_written(frame, params[i], actual[i], depth, p);
        if let Step::Done(Ok(_), st) = assign_view(frame, params[i], actual[i], depth) {
            lemma_bind_params_written(frame.with(st), params, actual, i + 1, depth, p);
            assert(preceded(frame.with(st), p) == preceded(frame, p).with(
                State { vars: st.vars, written: p + st.written },
            ));
        }
    }
}

/// A native function does not look at what was written.
proof fn lemma_native_written(
    w: World,
    name: Seq<char>,
    origin: Seq<char>,
    args: Seq<BlockView>,
    depth: nat,
    p: Seq<PieceView>,
)
    ensures
        native_view(preceded(w, p), name, origin, args, depth) == step_preceded(
            native_view(w, name, origin, args, depth),
            p,
        ),
    decreases depth, args, 1nat,
{
    if origin.len() == 0 {
        if name == "print"@ {
            assert((p + w.written) + print_pieces(args) =~= p + (w.written + print_pieces(args)));
        } else if name == "foreach"@ {
            if args.len() == 2 && (args[1] is Func || args[1] is NativeFunc) && depth > 0 {
                let below = (depth - 1) as nat;
                match args[0] {
                    BlockView::List(l) => {
                        lemma_map_written(w, args[1], l, 0, Seq::empty(), below, p);
                    },
                    BlockView::Object(TokenView::Text(t)) => {
                        lemma_map_written(w, args[1], char_texts(t), 0, Seq::empty(), below, p);
                    },
                    _ => {},
                }
            }
        }
    }
}

/// Mapping a function over items does not look at what was written.
proof fn lemma_map_written(
    w: World,
    func: BlockView,
    items: Seq<BlockView>,
    i: int,
    acc: Seq<BlockView>,
    depth: nat,
    p: Seq<PieceView>,
)
    ensures
        map_view(preceded(w, p), func, items, i, acc, depth) == step_preceded(
            map_view(w, func, items, i, acc, depth),
            p,
        ),
    decreases depth, items, items.len() - i + 2,
{
    if 0 <= i < items.len() {
        lemma_call_written(w, func, items[i], depth, p, None);
        if let Step::Done(Ok(v), st) = call_view(w, func, items[i], depth, None) {
            lemma_map_written(w.with(st), func, items, i + 1, acc.push(v), depth, p);
            assert(preceded(w.with(st), p) == preceded(w, p).with(
                State { vars: st.vars, written: p + st.written },
            ));
        }
    }
}

/// Evaluation does not look at what was written: with anything written
/// before, statements run to the same value and the same bindings, and
/// write the same after it.
pub proof fn law_written_is_not_read(
    w: World,
    body: Seq<ExpressionView>,
    depth: nat,
    p: Seq<PieceView>,
)
    ensures
        run_view(preceded(w, p), body, 0, BlockView::Null, depth) == step_preceded(
            run_view(w, body, 0, BlockView::Null, depth),
            p,
        ),
{
    lemma_run_written(w, body, 0, BlockView::Null, depth, p);
}


/// The world `w` with nothing written.
pub open spec fn silent(w: World) -> World {
    World { ns: w.ns, written: Seq::empty() }
}

/// A module body resolved twice gives equal modules. Resolving it leaves
/// the bindings of the namespace as they were, and does not look at what was
/// written: so resolved again, in the world that the first time left, it
/// gives the same result, leaves the same bindings, and writes once more
/// what it wrote the first time, which is what it writes in a world with
/// nothing written.
pub proof fn law_module_body_twice(w: World, body: Seq<ExpressionView>, depth: nat)
    ensures
        resolve_view(w, BlockView::ModBody(body), depth) matches Step::Done(r, st) ==> {
            let alone = resolve_view(silent(w), BlockView::ModBody(body), depth);
            &&& alone is Done
            &&& alone->Done_0 == r
            &&& st.vars == w.ns.module.vars
            &&& st.written == w.written + alone->Done_1.written
            &&& resolve_view(w.with(st), BlockView::ModBody(body), depth) == Step::Done(
                r,
                State { vars: st.vars, written: st.written + alone->Done_1.written },
            )
        },
{
    let b = BlockView::ModBody(body);
    assert(preceded(silent(w), w.written) == w) by {
        assert(Seq::<PieceView>::empty() + w.written =~= w.written);
        assert(w.written + Seq::<PieceView>::empty() =~= w.written);
    }
    lemma_resolve_written(silent(w), b, depth, w.written);
    if let Step::Done(r, st) = resolve_view(w, b, depth) {
        assert(preceded(silent(w), st.written) == w.with(st)) by {
            assert(st.written + Seq::<PieceView>::empty() =~= st.written);
        }
        lemma_resolve_written(silent(w), b, depth, st.written);
    }
}

/// Merging keeps every key that was bound, bound.
proof fn lemma_merge_keeps(vars: Vars, other: Vars, from: int, key: Seq<char>)
    requires
        0 <= from <= other.len(),
        lookup(vars, key) is Some,
    ensures
        lookup(merge(vars, other, from), key) is Some,
    decreases other.len() - from,
{
    if from < other.len() {
        lemma_bind_keeps(vars, other[from].0, other[from].1, key);
        lemma_merge_keeps(bind(vars, other[from].0, other[from].1), other, from + 1, key);
    }
}

/// Merging binds every key of the merged bindings from index `from` on.
proof fn lemma_merge_binds(vars: Vars, other: Vars, from: int, i: int)
    requires
        0 <= from <= i < other.len(),
    ensures
        lookup(merge(vars, other, from), other[i].0) is Some,
    decreases other.len() - from,
{
    let next = bind(vars, other[from].0, other[from].1);
    if from == i {
        lemma_bind_binds(vars, other[from].0, other[from].1);
        lemma_merge_keeps(next, other, from + 1, other[i].0);
    } else {
        lemma_merge_binds(next, other, from + 1, i);
    }
}

/// After a module was spilled into a namespace, every name that `vars`
/// lists for the module can be looked up in the namespace.
pub proof fn law_spill_binds_listed_names(ns: NameSpaceView, module: BlockView, i: int)
    requires
        module is Mod,
        0 <= i < names(module->Mod_0.vars).len(),
    ensures
        vars_view(ns.module.vars, seq![module]) == Ok::<BlockView, Failure>(
            BlockView::List(names(module->Mod_0.vars)),
        ),
        names(module->Mod_0.vars)[i] == BlockView::Object(
            TokenView::Text(module->Mod_0.vars[i].0),
        ),
        spill_view(ns, seq![module]).result is Ok,
        ns.with_vars(spill_view(ns, seq![module]).vars).get(module->Mod_0.vars[i].0) is Some,
{
    let m = module->Mod_0;
    lemma_merge_binds(ns.module.vars, m.vars, 0, i);
}

/// A return statement in a namespace with none around it is never a
/// success: where the statement itself can be solved, the run is an
/// evaluation error.
pub proof fn law_return_at_top_level(
    w: World,
    body: Seq<ExpressionView>,
    i: int,
    last: BlockView,
    depth: nat,
)
    requires
        w.ns.parent is None,
        0 <= i < body.len(),
        body[i].op == BlockView::Operator(TokenView::FuncReturn),
    ensures
        !(run_view(w, body, i, last, depth) matches Step::Done(Ok(_), _)),
        solve_view(w, body[i], depth) matches Step::Done(Ok(_), vars) ==> run_view(
            w,
            body,
            i,
            last,
            depth,
        ) == Step::Done(Err(eval_failure("cannot use return here!"@)), vars),
{
}

/// Whether the step `step` leaves no name bound twice.
pub open spec fn binds_once(step: Step) -> bool {
    step matches Step::Done(_, st) ==> distinct_names(st.vars)
}

/// Storing a value binds no name twice.
proof fn lemma_store_binds_once(ns: NameSpaceView, key: BlockView, val: BlockView)
    requires
        distinct_names(ns.module.vars),
    ensures
        distinct_names(store_view(ns, key, val).vars),
{
    let vars = ns.module.vars;
    match key {
        BlockView::Object(TokenView::Symbol(var)) => {
            lemma_bind_distinct(vars, var, val);
        },
        BlockView::Expr(e) => {
            if e.elems.len() >= 2 && e.elems[0] is Object && e.elems[0]->Object_0 is Symbol {
                let i = index_of(vars, e.elems[0]->Object_0->Symbol_0, 0);
                lemma_index_of(vars, e.elems[0]->Object_0->Symbol_0, 0);
                if i < vars.len() {
                    match vars[i].1 {
                        BlockView::List(l) => {
                            if e.elems[1] is Object && e.elems[1]->Object_0 is Number {
                                let n = e.elems[1]->Object_0->Number_0;
                                lemma_update_distinct(
                                    vars,
                                    i,
                                    BlockView::List(l.update(index_view(n)->Some_0, val)),
                                );
                            }
                        },
                        BlockView::Mod(m) => {
                            if e.elems[1] is Object && e.elems[1]->Object_0 is Symbol {
                                let prop = e.elems[1]->Object_0->Symbol_0;
                                lemma_update_distinct(
                                    vars,
                                    i,
                                    BlockView::Mod(
                                        ModuleView { vars: bind(m.vars, prop, val), path: m.path },
                                    ),
                                );
                            }
                        },
                        _ => {},
                    }
                }
            }
        },
        _ => {},
    }
}

/// Resolving binds no name twice.
proof fn lemma_resolve_binds_once(w: World, b: BlockView, depth: nat)
    requires
        distinct_names(w.ns.module.vars),
    ensures
        binds_once(resolve_view(w, b, depth)),
    decreases depth, b, 0nat,
{
    match b {
        BlockView::Expr(e) => {
            lemma_solve_binds_once(w, *e, depth);
        },
        BlockView::List(items) => {
            lemma_resolve_all_binds_once(w, items, 0, Seq::empty(), depth);
        },
        _ => {},
    }
}

/// Resolving several blocks binds no name twice.
proof fn lemma_resolve_all_binds_once(
    w: World,
    items: Seq<BlockView>,
    i: int,
    acc: Seq<BlockView>,
    depth: nat,
)
    requires
        distinct_names(w.ns.module.vars),
    ensures
        binds_once(resolve_all_view(w, items, i, acc, depth)),
    decreases depth, items, items.len() - i,
{
    if 0 <= i < items.len() {
        lemma_resolve_binds_once(w, items[i], depth);
        if let Step::Done(Ok(v), st) = resolve_view(w, items[i], depth) {
            lemma_resolve_all_binds_once(w.with(st), items, i + 1, acc.push(v), depth);
        }
    }
}

/// Running statements binds no name twice.
proof fn lemma_run_binds_once(
    w: World,
    body: Seq<ExpressionView>,
    i: int,
    last: BlockView,
    depth: nat,
)
    requires
        distinct_names(w.ns.module.vars),
    ensures
        binds_once(run_view(w, body, i, last, depth)),
    decreases depth, body, body.len() - i,
{
    if 0 <= i < body.len() {
        lemma_solve_binds_once(w, body[i], depth);
        if let Step::Done(Ok(v), st) = solve_view(w, body[i], depth) {
            if body[i].op != BlockView::Operator(TokenView::FuncReturn) {
                lemma_run_binds_once(w.with(st), body, i + 1, v, depth);
            }
        }
    }
}

/// Assigning binds no name twice.
proof fn lemma_assign_binds_once(w: World, key: BlockView, value: BlockView, depth: nat)
    requires
        distinct_names(w.ns.module.vars),
    ensures
        binds_once(assign_view(w, key, value, depth)),
    decreases depth, value, 1nat,
{
    lemma_resolve_binds_once(w, value, depth);
    if let Step::Done(Ok(val), st) = resolve_view(w, value, depth) {
        lemma_store_binds_once(w.with(st).ns, key, val);
    }
}

/// Arithmetic binds no name twice.
proof fn lemma_arith_binds_once(
    w: World,
    op: char,
    elems: Seq<BlockView>,
    i: int,
    acc: Option<u64>,
    depth: nat,
)
    requires
        distinct_names(w.ns.module.vars),
    ensures
        binds_once(arith_view(w, op, elems, i, acc, depth)),
    decreases depth, elems, elems.len() - i,
{
    if 0 <= i < elems.len() {
        lemma_resolve_binds_once(w, elems[i], depth);
        if let Step::Done(Ok(v), st) = resolve_view(w, elems[i], depth) {
            if let Some(n) = number_of(v) {
                lemma_arith_binds_once(
                    w.with(st),
                    op,
                    elems,
                    i + 1,
                    Some(fold_number(acc, op, n)),
                    depth,
                );
            }
        }
    }
}

/// Solving an expression binds no name twice.
proof fn lemma_solve_binds_once(w: World, e: ExpressionView, depth: nat)
    requires
        distinct_names(w.ns.module.vars),
    ensures
        binds_once(solve_view(w, e, depth)),
    decreases depth, e, 1nat,
{
    match e.op {
        BlockView::Operator(TokenView::Assign) => {
            if e.elems.len() == 2 {
                lemma_assign_binds_once(w, e.elems[0], e.elems[1], depth);
            }
        },
        BlockView::Operator(TokenView::Arith(op)) => {
            if e.elems.len() == 2 {
                lemma_arith_binds_once(w, op, e.elems, 0, None, depth);
            }
        },
        BlockView::Operator(TokenView::Comparison(_)) => {
            if e.elems.len() == 2 {
                lemma_resolve_all_binds_once(w, e.elems, 0, Seq::empty(), depth);
            }
        },
        BlockView::Operator(TokenView::FuncCall) => {
            lemma_solve_call_binds_once(w, e, depth);
        },
        BlockView::Operator(TokenView::FuncReturn) | BlockView::Operator(TokenView::List) => {
            lemma_resolve_all_binds_once(w, e.elems, 0, Seq::empty(), depth);
        },
        BlockView::Operator(TokenView::Index) => {
            if e.elems.len() == 2 {
                lemma_resolve_binds_once(w, e.elems[0], depth);
                if let Step::Done(Ok(_), st) = resolve_view(w, e.elems[0], depth) {
                    lemma_resolve_binds_once(w.with(st), e.elems[1], depth);
                }
            }
        },
        BlockView::Operator(TokenView::Accessor) => {
            if e.elems.len() == 2 {
                lemma_resolve_binds_once(w, e.elems[0], depth);
            }
        },
        _ => {},
    }
}

/// Solving a call binds no name twice.
proof fn lemma_solve_call_binds_once(w: World, e: ExpressionView, depth: nat)
    requires
        distinct_names(w.ns.module.vars),
    ensures
        binds_once(solve_call_view(w, e, depth)),
    decreases depth, e, 0nat,
{
    if e.elems.len() >= 2 {
        match e.elems[0] {
            BlockView::Object(TokenView::Symbol(name)) => {
                if let Some(func) = w.ns.get(name) {
                    lemma_call_binds_once(w, func, e.elems[1], depth, Some(name));
                }
            },
            BlockView::Func(_) => {
                lemma_call_binds_once(w, e.elems[0], e.elems[1], depth, None);
            },
            BlockView::Expr(x) => {
                lemma_solve_binds_once(w, *x, depth);
                if let Step::Done(Ok(func), st) = solve_view(w, *x, depth) {
                    lemma_call_binds_once(w.with(st), func, e.elems[1], depth, None);
                }
            },
            _ => {},
        }
    }
}

/// Calling binds no name twice.
proof fn lemma_call_binds_once(w: World, func: BlockView, args: BlockView, depth: nat, called: Option<Seq<char>>)
    requires
        distinct_names(w.ns.module.vars),
    ensures
        binds_once(call_view(w, func, args, depth, called)),
    decreases depth, args, 1nat,
{
    if depth > 0 {
        if let BlockView::NativeFunc(name, origin) = func {
            let below = (depth - 1) as nat;
            lemma_resolve_all_binds_once(w, actual_args(args), 0, Seq::empty(), below);
            if let Step::Done(Ok(BlockView::List(clean)), st) = resolve_all_view(
                w,
                actual_args(args),
                0,
                Seq::empty(),
                below,
            ) {
                lemma_native_binds_once(w.with(st), name, origin, clean, below);
            }
        }
    }
}

/// A native function binds no name twice.
proof fn lemma_native_binds_once(
    w: World,
    name: Seq<char>,
    origin: Seq<char>,
    args: Seq<BlockView>,
    depth: nat,
)
    requires
        distinct_names(w.ns.module.vars),
    ensures
        binds_once(native_view(w, name, origin, args, depth)),
    decreases depth, args, 1nat,
{
    if origin.len() == 0 {
        if name == "foreach"@ {
            if args.len() == 2 && (args[1] is Func || args[1] is NativeFunc) && depth > 0 {
                let below = (depth - 1) as nat;
                match args[0] {
                    BlockView::List(l) => {
                        lemma_map_binds_once(w, args[1], l, 0, Seq::empty(), below);
                    },
                    BlockView::Object(TokenView::Text(t)) => {
                        lemma_map_binds_once(w, args[1], char_texts(t), 0, Seq::empty(), below);
                    },
                    _ => {},
                }
            }
        } else if name == "spill"@ {
            if args.len() == 1 && args[0] is Mod {
                lemma_merge_distinct(w.ns.module.vars, args[0]->Mod_0.vars, 0);
            }
        }
    }
}

/// Mapping a function over items binds no name twice.
proof fn lemma_map_binds_once(
    w: World,
    func: BlockView,
    items: Seq<BlockView>,
    i: int,
    acc: Seq<BlockView>,
    depth: nat,
)
    requires
        distinct_names(w.ns.module.vars),
    ensures
        binds_once(map_view(w, func, items, i, acc, depth)),
    decreases depth, items, items.len() - i + 2,
{
    if 0 <= i < items.len() {
        lemma_call_binds_once(w, func, items[i], depth, None);
        if let Step::Done(Ok(v), st) = call_view(w, func, items[i], depth, None) {
            lemma_map_binds_once(w.with(st), func, items, i + 1, acc.push(v), depth);
        }
    }
}

/// A namespace is a mapping: running statements in a namespace that binds
/// no name twice leaves a namespace that binds no name twice.
pub proof fn law_names_are_bound_once(w: World, body: Seq<ExpressionView>, depth: nat)
    requires
        distinct_names(w.ns.module.vars),
    ensures
        binds_once(run_view(w, body, 0, BlockView::Null, depth)),
{
    lemma_run_binds_once(w, body, 0, BlockView::Null, depth);
}

} // verus!
