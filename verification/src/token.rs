//! Lexical tokens and their mathematical view.

use crate::number::{double_compare, double_order, Number};
use vstd::prelude::*;
use vstd::std_specs::cmp::PartialEqSpecImpl;

verus! {

/// One lexical token.
#[derive(Debug, Clone)]
pub enum Token {
    Number(Number),
    Text(String),
    Symbol(String),
    Arith(char),
    Comparison(String),
    ScopeStart(char),
    ScopeEnd(char),
    Separator,
    FuncDef,
    FuncCall,
    FuncReturn,
    List,
    Index,
    Assign,
    Accessor,
    _Comment,
    _NewLine,
}

/// The view of a [`Token`]: the same variants over sequences of characters.
pub enum TokenView {
    Number(u64),
    Text(Seq<char>),
    Symbol(Seq<char>),
    Arith(char),
    Comparison(Seq<char>),
    ScopeStart(char),
    ScopeEnd(char),
    Separator,
    FuncDef,
    FuncCall,
    FuncReturn,
    List,
    Index,
    Assign,
    Accessor,
    Comment,
    NewLine,
}

impl View for Token {
    type V = TokenView;

    open spec fn view(&self) -> TokenView {
        match self {
            Token::Number(n) => TokenView::Number(n.bits),
            Token::Text(s) => TokenView::Text(s@),
            Token::Symbol(s) => TokenView::Symbol(s@),
            Token::Arith(c) => TokenView::Arith(*c),
            Token::Comparison(s) => TokenView::Comparison(s@),
            Token::ScopeStart(c) => TokenView::ScopeStart(*c),
            Token::ScopeEnd(c) => TokenView::ScopeEnd(*c),
            Token::Separator => TokenView::Separator,
            Token::FuncDef => TokenView::FuncDef,
            Token::FuncCall => TokenView::FuncCall,
            Token::FuncReturn => TokenView::FuncReturn,
            Token::List => TokenView::List,
            Token::Index => TokenView::Index,
            Token::Assign => TokenView::Assign,
            Token::Accessor => TokenView::Accessor,
            Token::_Comment => TokenView::Comment,
            Token::_NewLine => TokenView::NewLine,
        }
    }
}

/// Whether two tokens are equal: the same variant with equal contents, where
/// two numbers are equal if they compare equal as binary64 values.
pub open spec fn token_eq(a: TokenView, b: TokenView) -> bool {
    match (a, b) {
        (TokenView::Number(x), TokenView::Number(y)) => double_order(x, y) == 0,
        (TokenView::Number(_), _) => false,
        (_, TokenView::Number(_)) => false,
        _ => a == b,
    }
}

/// The views of the tokens of `v`, in order.
pub open spec fn token_views(v: Seq<Token>) -> Seq<TokenView> {
    Seq::new(v.len(), |i: int| v[i]@)
}

impl Token {
    /// Whether this is the end-of-line token.
    pub fn is_newline_token(&self) -> (b: bool)
        ensures
            b == (self@ == TokenView::NewLine),
    {
        match self {
            Token::_NewLine => true,
            _ => false,
        }
    }

    /// A token with the same view.
    pub fn copy(&self) -> (t: Token)
        ensures
            t@ == self@,
    {
        match self {
            Token::Number(n) => Token::Number(*n),
            Token::Text(s) => Token::Text(s.clone()),
            Token::Symbol(s) => Token::Symbol(s.clone()),
            Token::Arith(c) => Token::Arith(*c),
            Token::Comparison(s) => Token::Comparison(s.clone()),
            Token::ScopeStart(c) => Token::ScopeStart(*c),
            Token::ScopeEnd(c) => Token::ScopeEnd(*c),
            Token::Separator => Token::Separator,
            Token::FuncDef => Token::FuncDef,
            Token::FuncCall => Token::FuncCall,
            Token::FuncReturn => Token::FuncReturn,
            Token::List => Token::List,
            Token::Index => Token::Index,
            Token::Assign => Token::Assign,
            Token::Accessor => Token::Accessor,
            Token::_Comment => Token::_Comment,
            Token::_NewLine => Token::_NewLine,
        }
    }
}

impl PartialEq for Token {
    fn eq(&self, other: &Token) -> (b: bool) {
        match self {
            Token::Number(x) => match other {
                Token::Number(y) => double_compare(x.bits, y.bits) == 0,
                _ => false,
            },
            Token::Text(x) => match other {
                Token::Text(y) => *x == *y,
                _ => false,
            },
            Token::Symbol(x) => match other {
                Token::Symbol(y) => *x == *y,
                _ => false,
            },
            Token::Arith(x) => match other {
                Token::Arith(y) => *x == *y,
                _ => false,
            },
            Token::Comparison(x) => match other {
                Token::Comparison(y) => *x == *y,
                _ => false,
            },
            Token::ScopeStart(x) => match other {
                Token::ScopeStart(y) => *x == *y,
                _ => false,
            },
            Token::ScopeEnd(x) => match other {
                Token::ScopeEnd(y) => *x == *y,
                _ => false,
            },
            Token::Separator => matches!(other, Token::Separator),
            Token::FuncDef => matches!(other, Token::FuncDef),
            Token::FuncCall => matches!(other, Token::FuncCall),
            Token::FuncReturn => matches!(other, Token::FuncReturn),
            Token::List => matches!(other, Token::List),
            Token::Index => matches!(other, Token::Index),
            Token::Assign => matches!(other, Token::Assign),
            Token::Accessor => matches!(other, Token::Accessor),
            Token::_Comment => matches!(other, Token::_Comment),
            Token::_NewLine => matches!(other, Token::_NewLine),
        }
    }
}

impl PartialEqSpecImpl for Token {
    open spec fn obeys_eq_spec() -> bool {
        true
    }

    open spec fn eq_spec(&self, other: &Token) -> bool {
        token_eq(self@, other@)
    }
}

} // verus!
