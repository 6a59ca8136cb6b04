//! The token stream with its cursor, and the scanner that fills it.

use crate::errors::{Error, ErrorKind};
use crate::number::{double_of_text, double_parse, Number};
use crate::text::{chars_of, string_of, string_of_range};
use crate::token::{token_eq, token_views, Token, TokenView};
use regex::RegexSet;
use vstd::prelude::*;
use vstd::utf8::encode_utf8;

verus! {

/// The token at index `i` of `tokens`, if there is one.
pub open spec fn token_at(tokens: Seq<TokenView>, i: int) -> Option<TokenView> {
    if 0 <= i < tokens.len() {
        Some(tokens[i])
    } else {
        None
    }
}

/// Whether a peeked token is the expected one; `None` expects the end of the
/// stream.
pub open spec fn peek_is(peeked: Option<TokenView>, expected: Option<TokenView>) -> bool {
    match (expected, peeked) {
        (Some(e), Some(p)) => token_eq(e, p),
        (None, None) => true,
        _ => false,
    }
}

/// Whether a peeked token equals one of `set`. Past the end of the stream
/// nothing is peeked, and the answer is no.
pub open spec fn peek_in(peeked: Option<TokenView>, set: Seq<TokenView>) -> bool {
    match peeked {
        Some(p) => exists|i: int| 0 <= i < set.len() && #[trigger] token_eq(set[i], p),
        None => false,
    }
}

/// `pointer + n`, held at `usize::MAX`.
pub open spec fn forward(pointer: usize, n: usize) -> usize {
    if pointer + n > usize::MAX {
        usize::MAX
    } else {
        (pointer + n) as usize
    }
}

/// `pointer - n`, held at zero.
pub open spec fn backward(pointer: usize, n: usize) -> usize {
    if pointer < n {
        0
    } else {
        (pointer - n) as usize
    }
}

/// The views of the tokens of a slice, in order.
pub open spec fn slice_views(set: Option<&[Token]>) -> Seq<TokenView> {
    match set {
        Some(s) => token_views(s@),
        None => Seq::empty(),
    }
}

/// A sequence of tokens with a cursor. The cursor may stand past the end,
/// where nothing is peeked.
#[derive(Debug)]
pub struct TokenStream {
    tokens: Vec<Token>,
    _pointer: usize,
}

impl TokenStream {
    /// The tokens held, by their views.
    pub closed spec fn tokens(&self) -> Seq<TokenView> {
        token_views(self.tokens@)
    }

    /// Where the cursor stands.
    pub closed spec fn pointer(&self) -> usize {
        self._pointer
    }

    /// The token under the cursor.
    pub open spec fn current(&self) -> Option<TokenView> {
        token_at(self.tokens(), self.pointer() as int)
    }

    /// The token after the cursor.
    pub open spec fn next(&self) -> Option<TokenView> {
        token_at(self.tokens(), self.pointer() + 1)
    }

    /// The token before the cursor.
    pub open spec fn prev(&self) -> Option<TokenView> {
        token_at(self.tokens(), self.pointer() - 1)
    }

    /// An empty stream with the cursor at zero.
    pub fn new() -> (s: TokenStream)
        ensures
            s.tokens() == Seq::<TokenView>::empty(),
            s.pointer() == 0,
    {
        let s = TokenStream { tokens: Vec::new(), _pointer: 0 };
        s
    }

    /// A stream over `tokens` with the cursor at zero.
    pub fn from_tokens(tokens: Vec<Token>) -> (s: TokenStream)
        ensures
            s.tokens() == token_views(tokens@),
            s.pointer() == 0,
    {
        TokenStream { tokens, _pointer: 0 }
    }

    /// A stream holds no more tokens than an index can count.
    pub proof fn lemma_len_fits(&self)
        ensures
            self.tokens().len() <= usize::MAX,
    {
        assert(self.tokens@.len() == self.tokens.len());
    }

    /// How many tokens the stream holds.
    pub fn len(&self) -> (n: usize)
        ensures
            n == self.tokens().len(),
    {
        self.tokens.len()
    }

    fn _valid_index(&self, i: usize) -> (b: bool)
        ensures
            b == (i < self.tokens().len()),
    {
        i < self.tokens.len()
    }

    /// Moves the cursor `n` tokens forward, stopping at `usize::MAX`.
    pub fn inc_n(&mut self, n: usize)
        ensures
            final(self).tokens() == old(self).tokens(),
            final(self).pointer() == forward(old(self).pointer(), n),
    {
        self._pointer = self._pointer.saturating_add(n);
    }

    /// Moves the cursor one token forward.
    pub fn inc(&mut self)
        ensures
            final(self).tokens() == old(self).tokens(),
            final(self).pointer() == forward(old(self).pointer(), 1),
    {
        self.inc_n(1);
    }

    /// Moves the cursor `n` tokens backward, stopping at zero.
    pub fn dec_n(&mut self, n: usize)
        ensures
            final(self).tokens() == old(self).tokens(),
            final(self).pointer() == backward(old(self).pointer(), n),
    {
        self._pointer = self._pointer.saturating_sub(n);
    }

    /// Moves the cursor one token backward.
    pub fn dec(&mut self)
        ensures
            final(self).tokens() == old(self).tokens(),
            final(self).pointer() == backward(old(self).pointer(), 1),
    {
        self.dec_n(1);
    }

    /// Where the cursor stands.
    pub fn current_idx(&self) -> (i: usize)
        ensures
            i == self.pointer(),
    {
        self._pointer
    }

    /// The token at index `i`, or `None` past the end.
    pub fn get_current_at(&self, i: usize) -> (t: Option<&Token>)
        ensures
            t is Some <==> i < self.tokens().len(),
            t matches Some(tok) ==> tok@ == self.tokens()[i as int],
    {
        if self._valid_index(i) {
            Some(&self.tokens[i])
        } else {
            None
        }
    }

    /// The token under the cursor.
    pub fn get_current(&self) -> (t: Option<&Token>)
        ensures
            t is Some <==> self.current() is Some,
            t matches Some(tok) ==> Some(tok@) == self.current(),
    {
        self.get_current_at(self._pointer)
    }

    /// The token after the cursor.
    pub fn get_next(&self) -> (t: Option<&Token>)
        ensures
            t is Some <==> self.next() is Some,
            t matches Some(tok) ==> Some(tok@) == self.next(),
    {
        if self._pointer < self.tokens.len() {
            self.get_current_at(self._pointer + 1)
        } else {
            None
        }
    }

    /// The token before the cursor; `None` at the start of the stream.
    pub fn get_prev(&self) -> (t: Option<&Token>)
        ensures
            t is Some <==> self.prev() is Some,
            t matches Some(tok) ==> Some(tok@) == self.prev(),
    {
        if self._pointer > 0 {
            self.get_current_at(self._pointer - 1)
        } else {
            None
        }
    }

    fn is(tkn: Option<&Token>, other: &Option<Token>) -> (b: bool)
        ensures
            b == peek_is(
                match tkn {
                    Some(t) => Some(t@),
                    None => None,
                },
                match other {
                    Some(t) => Some(t@),
                    None => None,
                },
            ),
    {
        match other {
            Some(t) => match tkn {
                Some(k) => *t == *k,
                None => false,
            },
            None => tkn.is_none(),
        }
    }

    fn is_in(tkn: Option<&Token>, others: &Option<&[Token]>) -> (b: bool)
        ensures
            b == peek_in(
                match tkn {
                    Some(t) => Some(t@),
                    None => None,
                },
                slice_views(*others),
            ),
    {
        match tkn {
            None => false,
            Some(k) => match others {
                None => false,
                Some(set) => {
                    let mut i: usize = 0;
                    while i < set.len()
                        invariant
                            i <= set@.len(),
                            *others == Some(*set),
                            tkn == Some(k),
                            forall|j: int| 0 <= j < i ==> !token_eq(#[trigger] set@[j]@, k@),
                        decreases set@.len() - i,
                    {
                        if set[i] == *k {
                            proof {
                                let views = slice_views(*others);
                                assert(0 <= i < views.len() && token_eq(views[i as int], k@));
                            }
                            return true;
                        }
                        i += 1;
                    }
                    assert forall|j: int| 0 <= j < slice_views(*others).len() implies !token_eq(
                        #[trigger] slice_views(*others)[j],
                        k@,
                    ) by {}
                    false
                },
            },
        }
    }

    /// Whether the token under the cursor is `other`; `None` asks for the end
    /// of the stream.
    pub fn current_is(&self, other: &Option<Token>) -> (b: bool)
        ensures
            b == peek_is(
                self.current(),
                match other {
                    Some(t) => Some(t@),
                    None => None,
                },
            ),
    {
        let tkn = self.get_current();
        TokenStream::is(tkn, other)
    }

    /// Whether the token after the cursor is `other`.
    pub fn next_is(&self, other: &Option<Token>) -> (b: bool)
        ensures
            b == peek_is(
                self.next(),
                match other {
                    Some(t) => Some(t@),
                    None => None,
                },
            ),
    {
        let tkn = self.get_next();
        TokenStream::is(tkn, other)
    }

    /// Whether the token before the cursor is `other`.
    pub fn prev_is(&self, other: &Option<Token>) -> (b: bool)
        ensures
            b == peek_is(
                self.prev(),
                match other {
                    Some(t) => Some(t@),
                    None => None,
                },
            ),
    {
        let tkn = self.get_prev();
        TokenStream::is(tkn, other)
    }

    /// Whether the token under the cursor is one of `others`.
    pub fn current_is_in(&self, others: &Option<&[Token]>) -> (b: bool)
        ensures
            b == peek_in(self.current(), slice_views(*others)),
    {
        let tkn = self.get_current();
        TokenStream::is_in(tkn, others)
    }

    /// Whether the token after the cursor is one of `others`.
    pub fn next_is_in(&self, others: &Option<&[Token]>) -> (b: bool)
        ensures
            b == peek_in(self.next(), slice_views(*others)),
    {
        let tkn = self.get_next();
        TokenStream::is_in(tkn, others)
    }

    /// Whether the token before the cursor is one of `others`.
    pub fn prev_is_in(&self, others: &Option<&[Token]>) -> (b: bool)
        ensures
            b == peek_in(self.prev(), slice_views(*others)),
    {
        let tkn = self.get_prev();
        TokenStream::is_in(tkn, others)
    }
}


/// A compiled set of regular expressions of the `regex` crate.
#[verifier::external_type_specification]
#[verifier::external_body]
pub struct ExRegexSet(RegexSet);

/// The patterns that a set was compiled from, in order.
pub uninterp spec fn set_patterns(set: RegexSet) -> Seq<Seq<char>>;

/// Whether the `regex` crate accepts the patterns and compiles them into one
/// set.
pub uninterp spec fn patterns_compile(patterns: Seq<Seq<char>>) -> bool;

/// The indices, in ascending order, of the patterns that match somewhere in
/// `text`, by the syntax and semantics of the `regex` crate.
pub uninterp spec fn pattern_matches(patterns: Seq<Seq<char>>, text: Seq<char>) -> Seq<usize>;

/// `RegexSet::new` of `regex`: compiles the patterns into one set, which
/// then reports them as its patterns. `None` where the crate refuses them,
/// which depends on the patterns alone.
#[verifier::external_body]
fn regex_set_new(patterns: &Vec<String>) -> (r: Option<RegexSet>)
    ensures
        r is Some <==> patterns_compile(Seq::new(patterns@.len(), |i: int| patterns@[i]@)),
        r matches Some(set) ==> set_patterns(set) == Seq::new(
            patterns@.len(),
            |i: int| patterns@[i]@,
        ),
{
    RegexSet::new(patterns).ok()
}

/// `RegexSet::matches` of `regex`: the indices of the patterns of the set
/// that match in `text`, collected in the ascending order in which the crate
/// hands them out.
#[verifier::external_body]
fn regex_set_matches(set: &RegexSet, text: &str) -> (r: Vec<usize>)
    ensures
        r@ == pattern_matches(set_patterns(*set), text@),
{
    set.matches(text).into_iter().collect()
}

/// The patterns of the tokens, in order of priority: symbol, number, text,
/// arithmetic operator, separator, scope start, scope end, function arrow,
/// comma, assignment, comment, end of line, comparison.
pub open spec fn token_patterns() -> Seq<Seq<char>> {
    seq![
        r"^[\*]?[_a-zA-Z]+[_a-zA-Z0-9]*$"@,
        r"^[+-]?[.\d]+$"@,
        r#"(?s)(^".*"$)|(^'.*'$)"#@,
        r#"^[+\-/\*]$"#@,
        r"^;$"@,
        r"^[({\[]$"@,
        r"^[})\]]$"@,
        r"^=>$"@,
        r"^,$"@,
        r"^=$"@,
        r"^#.*$"@,
        r"^(\r\n|\r|\n)$"@,
        r#"^(==|!=|<|<=|>|>=)$"#@,
    ]
}

/// The pattern of a text that was opened by a quote and not closed yet.
pub open spec fn pending_patterns() -> Seq<Seq<char>> {
    seq![r#"^('[^']*|"[^"]*)$"#@]
}

/// The index of the first token pattern that matches `text`, if any does.
pub open spec fn first_match(text: Seq<char>) -> Option<usize> {
    let m = pattern_matches(token_patterns(), text);
    if m.len() > 0 {
        Some(m[0])
    } else {
        None
    }
}

/// Whether `text` is an opened and unclosed quoted text.
pub open spec fn is_pending(text: Seq<char>) -> bool {
    pattern_matches(pending_patterns(), text).len() > 0
}

/// The message for a text that makes no token.
pub open spec fn unidentified() -> Seq<char> {
    "Unidentified symbol"@
}

/// The token that `text` makes when the token pattern of index `pattern` is
/// the first to match it, or the message where it makes none. A symbol spelled `ret`
/// is the return marker, a number spelled `.` is the accessor, a text loses
/// its quotes, and a number must be a decimal literal.
pub open spec fn token_of_match(pattern: usize, text: Seq<char>) -> Result<TokenView, Seq<char>> {
    if pattern == 0 {
        if text == "ret"@ {
            Ok(TokenView::FuncReturn)
        } else {
            Ok(TokenView::Symbol(text))
        }
    } else if pattern == 1 {
        if text == "."@ {
            Ok(TokenView::Accessor)
        } else {
            match double_of_text(text) {
                Some(bits) => Ok(TokenView::Number(bits)),
                None => Err("This is not a number"@),
            }
        }
    } else if pattern == 2 {
        if text.len() >= 2 {
            Ok(TokenView::Text(text.subrange(1, text.len() - 1)))
        } else {
            Err(unidentified())
        }
    } else if pattern == 3 {
        if text.len() >= 1 {
            Ok(TokenView::Arith(text[0]))
        } else {
            Err(unidentified())
        }
    } else if pattern == 4 {
        Ok(TokenView::Separator)
    } else if pattern == 5 {
        if text.len() >= 1 {
            Ok(TokenView::ScopeStart(text[0]))
        } else {
            Err(unidentified())
        }
    } else if pattern == 6 {
        if text.len() >= 1 {
            Ok(TokenView::ScopeEnd(text[0]))
        } else {
            Err(unidentified())
        }
    } else if pattern == 7 {
        Ok(TokenView::FuncDef)
    } else if pattern == 8 {
        Ok(TokenView::List)
    } else if pattern == 9 {
        Ok(TokenView::Assign)
    } else if pattern == 10 {
        Ok(TokenView::Comment)
    } else if pattern == 11 {
        Ok(TokenView::NewLine)
    } else if pattern == 12 {
        Ok(TokenView::Comparison(text))
    } else {
        Err(unidentified())
    }
}

/// The token that `text` makes, or the message where it makes none.
pub open spec fn token_of_text(text: Seq<char>) -> Result<TokenView, Seq<char>> {
    match first_match(text) {
        Some(pattern) => token_of_match(pattern, text),
        None => Err(unidentified()),
    }
}

/// Whether `c` is a space or a tab.
pub open spec fn is_blank(c: char) -> bool {
    c == ' ' || c == '\t'
}

/// The first index from `i` on that holds no blank, or the length of `w`.
pub open spec fn skip_blanks(w: Seq<char>, i: int) -> int
    decreases w.len() - i,
{
    if 0 <= i < w.len() && is_blank(w[i]) {
        skip_blanks(w, i + 1)
    } else {
        i
    }
}

/// The least index `k` with `lo <= k <= j` such that `w[k..j]` is all
/// blanks.
pub open spec fn back_blanks(w: Seq<char>, j: int, lo: int) -> int
    decreases j,
{
    if 0 <= lo < j <= w.len() && is_blank(w[j - 1]) {
        back_blanks(w, j - 1, lo)
    } else {
        j
    }
}

/// `w` without the blanks at its start and at its end.
pub open spec fn trim_view(w: Seq<char>) -> Seq<char> {
    let i = skip_blanks(w, 0);
    let j = back_blanks(w, w.len() as int, i);
    w.subrange(i, j)
}

/// `out` with the token `t` appended, after the marker that its place calls
/// for: a call marker before a `(` that follows a symbol or a scope end, an
/// index marker before every `[`. A symbol spelled `ret` is appended as the
/// return marker.
pub open spec fn tweak_view(out: Seq<TokenView>, t: TokenView) -> Seq<TokenView> {
    if t == TokenView::ScopeStart('(') {
        if out.len() > 0 && (out.last() is Symbol || out.last() is ScopeEnd) {
            out.push(TokenView::FuncCall).push(t)
        } else {
            out.push(t)
        }
    } else if t == TokenView::ScopeStart('[') {
        out.push(TokenView::Index).push(t)
    } else if t == TokenView::Symbol("ret"@) {
        out.push(TokenView::FuncReturn)
    } else {
        out.push(t)
    }
}

/// The tokens of `code` from its character `i` on, given the window `word`
/// read so far and the tokens `out` already made, or the message where some
/// window makes no token.
///
/// The window grows character by character. Once the trimmed window is
/// longer than one byte and matches no token pattern, the window without its
/// last character makes a token, and that character starts a new window,
/// unless the window is an unclosed quoted text, which goes on growing. At
/// the end of the input the window makes a last token, unless it is blank or
/// an unclosed quoted text.
pub open spec fn lex_from(code: Seq<char>, i: int, word: Seq<char>, out: Seq<TokenView>) -> Result<
    Seq<TokenView>,
    Seq<char>,
>
    decreases code.len() - i,
{
    if i < 0 || i >= code.len() {
        if word.len() != 0 && !is_pending(word) {
            let t = trim_view(word);
            if t.len() == 0 {
                Ok(out)
            } else {
                match token_of_text(t) {
                    Ok(tok) => Ok(tweak_view(out, tok)),
                    Err(m) => Err(m),
                }
            }
        } else {
            Ok(out)
        }
    } else {
        let c = code[i];
        let grown = trim_view(word.push(c));
        if encode_utf8(grown).len() > 1 && first_match(grown) is None {
            if !is_pending(word) {
                match token_of_text(trim_view(word)) {
                    Ok(tok) => lex_from(code, i + 1, seq![c], tweak_view(out, tok)),
                    Err(m) => Err(m),
                }
            } else {
                lex_from(code, i + 1, word.push(c), out)
            }
        } else {
            lex_from(code, i + 1, word.push(c), out)
        }
    }
}

/// The tokens of `code`, or the message where some window makes no token.
pub open spec fn lex_view(code: Seq<char>) -> Result<Seq<TokenView>, Seq<char>> {
    lex_from(code, 0, Seq::empty(), Seq::empty())
}

/// The message where the patterns of the language do not compile.
pub open spec fn no_lexicon() -> Seq<char> {
    "The token patterns do not compile"@
}

/// Whether the patterns of the language compile.
pub open spec fn lexicon_compiles() -> bool {
    patterns_compile(token_patterns()) && patterns_compile(pending_patterns())
}

/// The token patterns as strings.
fn token_pattern_list() -> (v: Vec<String>)
    ensures
        Seq::new(v@.len(), |i: int| v@[i]@) == token_patterns(),
{
    let mut v: Vec<String> = Vec::new();
    v.push(r"^[\*]?[_a-zA-Z]+[_a-zA-Z0-9]*$".to_owned());
    v.push(r"^[+-]?[.\d]+$".to_owned());
    v.push(r#"(?s)(^".*"$)|(^'.*'$)"#.to_owned());
    v.push(r#"^[+\-/\*]$"#.to_owned());
    v.push(r"^;$".to_owned());
    v.push(r"^[({\[]$".to_owned());
    v.push(r"^[})\]]$".to_owned());
    v.push(r"^=>$".to_owned());
    v.push(r"^,$".to_owned());
    v.push(r"^=$".to_owned());
    v.push(r"^#.*$".to_owned());
    v.push(r"^(\r\n|\r|\n)$".to_owned());
    v.push(r#"^(==|!=|<|<=|>|>=)$"#.to_owned());
    v
}

/// The pattern of an unclosed quoted text, as a string.
fn pending_pattern_list() -> (v: Vec<String>)
    ensures
        Seq::new(v@.len(), |i: int| v@[i]@) == pending_patterns(),
{
    let mut v: Vec<String> = Vec::new();
    v.push(r#"^('[^']*|"[^"]*)$"#.to_owned());
    v
}

/// `w` without the spaces and tabs at its start and at its end.
pub fn trim_spaces(w: &Vec<char>) -> (t: String)
    ensures
        t@ == trim_view(w@),
{
    let mut i: usize = 0;
    while i < w.len() && (w[i] == ' ' || w[i] == '\t')
        invariant
            i <= w@.len(),
            skip_blanks(w@, i as int) == skip_blanks(w@, 0),
        decreases w@.len() - i,
    {
        i += 1;
    }
    let mut j: usize = w.len();
    while j > i && (w[j - 1] == ' ' || w[j - 1] == '\t')
        invariant
            i <= j <= w@.len(),
            back_blanks(w@, j as int, i as int) == back_blanks(w@, w@.len() as int, i as int),
        decreases j,
    {
        j -= 1;
    }
    string_of_range(w, i, j)
}

/// Appends `tkn` to `dest`, after the marker that its place calls for: see
/// [`tweak_view`].
pub fn push_tweaked(tkn: Token, dest: &mut Vec<Token>)
    ensures
        token_views(final(dest)@) == tweak_view(token_views(old(dest)@), tkn@),
{
    let is_ret = match &tkn {
        Token::Symbol(s) => *s == "ret".to_owned(),
        _ => false,
    };
    if matches!(tkn, Token::ScopeStart('(')) {
        let after_callee = dest.len() > 0 && (matches!(dest[dest.len() - 1], Token::Symbol(_))
            || matches!(dest[dest.len() - 1], Token::ScopeEnd(_)));
        if after_callee {
            dest.push(Token::FuncCall);
        }
        dest.push(tkn);
    } else if matches!(tkn, Token::ScopeStart('[')) {
        dest.push(Token::Index);
        dest.push(tkn);
    } else if is_ret {
        dest.push(Token::FuncReturn);
    } else {
        dest.push(tkn);
    }
}

impl Token {
    /// The token that `txt` makes when the token pattern of index `pattern`
    /// is the first to match it: see [`token_of_match`]. A text that makes
    /// none is a lexer error.
    pub fn from_match(pattern: usize, txt: &str) -> (r: Result<Token, Error>)
        ensures
            match token_of_match(pattern, txt@) {
                Ok(t) => r is Ok && r->Ok_0@ == t,
                Err(m) => r is Err && r->Err_0.kind() == ErrorKind::Lexer && r->Err_0.message() == m && r->Err_0.is_plain(),
            },
    {
        let chars = chars_of(txt);
        if pattern == 0 {
            if txt.to_owned() == "ret".to_owned() {
                Ok(Token::FuncReturn)
            } else {
                Ok(Token::Symbol(txt.to_owned()))
            }
        } else if pattern == 1 {
            if txt.to_owned() == ".".to_owned() {
                Ok(Token::Accessor)
            } else {
                match double_parse(txt) {
                    Some(bits) => Ok(Token::Number(Number { bits })),
                    None => Err(Error::new(ErrorKind::Lexer, "This is not a number")),
                }
            }
        } else if pattern == 2 {
            if chars.len() >= 2 {
                Ok(Token::Text(string_of_range(&chars, 1, chars.len() - 1)))
            } else {
                Err(Error::new(ErrorKind::Lexer, "Unidentified symbol"))
            }
        } else if pattern == 3 {
            if chars.len() >= 1 {
                Ok(Token::Arith(chars[0]))
            } else {
                Err(Error::new(ErrorKind::Lexer, "Unidentified symbol"))
            }
        } else if pattern == 4 {
            Ok(Token::Separator)
        } else if pattern == 5 {
            if chars.len() >= 1 {
                Ok(Token::ScopeStart(chars[0]))
            } else {
                Err(Error::new(ErrorKind::Lexer, "Unidentified symbol"))
            }
        } else if pattern == 6 {
            if chars.len() >= 1 {
                Ok(Token::ScopeEnd(chars[0]))
            } else {
                Err(Error::new(ErrorKind::Lexer, "Unidentified symbol"))
            }
        } else if pattern == 7 {
            Ok(Token::FuncDef)
        } else if pattern == 8 {
            Ok(Token::List)
        } else if pattern == 9 {
            Ok(Token::Assign)
        } else if pattern == 10 {
            Ok(Token::_Comment)
        } else if pattern == 11 {
            Ok(Token::_NewLine)
        } else if pattern == 12 {
            Ok(Token::Comparison(txt.to_owned()))
        } else {
            Err(Error::new(ErrorKind::Lexer, "Unidentified symbol"))
        }
    }

    /// The token that `value` makes ([`token_of_text`]). A text that makes
    /// no token is a lexer error, and so is every text where the patterns of
    /// the language do not compile.
    pub fn create(value: &str) -> (r: Result<Token, Error>)
        ensures
            r is Err ==> r->Err_0.kind() == ErrorKind::Lexer,
            if lexicon_compiles() {
                match token_of_text(value@) {
                    Ok(t) => r is Ok && r->Ok_0@ == t,
                    Err(m) => r is Err && r->Err_0.message() == m && r->Err_0.is_plain(),
                }
            } else {
                r is Err && r->Err_0.message() == no_lexicon() && r->Err_0.is_plain()
            },
    {
        match Lexicon::new() {
            Some(lexicon) => lexicon.create(value),
            None => Err(Error::new(ErrorKind::Lexer, "The token patterns do not compile")),
        }
    }
}

/// The compiled patterns of the language's tokens.
pub struct Lexicon {
    tokens: RegexSet,
    pending: RegexSet,
}

impl Lexicon {
    #[verifier::type_invariant]
    spec fn well_formed(&self) -> bool {
        &&& set_patterns(self.tokens) == token_patterns()
        &&& set_patterns(self.pending) == pending_patterns()
    }

    /// The patterns that the set of token patterns was compiled from.
    pub closed spec fn token_set(&self) -> Seq<Seq<char>> {
        set_patterns(self.tokens)
    }

    /// The patterns that the set for unclosed texts was compiled from.
    pub closed spec fn pending_set(&self) -> Seq<Seq<char>> {
        set_patterns(self.pending)
    }

    /// Compiles the patterns of the language: a lexicon that comes out holds
    /// one set compiled from the token patterns and one compiled from the
    /// pattern of an unclosed text. `None` where the `regex` crate refuses
    /// either.
    pub fn new() -> (r: Option<Lexicon>)
        ensures
            r is Some <==> lexicon_compiles(),
            r matches Some(lexicon) ==> lexicon.token_set() == token_patterns()
                && lexicon.pending_set() == pending_patterns(),
    {
        let tokens = regex_set_new(&token_pattern_list());
        let pending = regex_set_new(&pending_pattern_list());
        match tokens {
            Some(tokens) => match pending {
                Some(pending) => Some(Lexicon { tokens, pending }),
                None => None,
            },
            None => None,
        }
    }

    /// The index of the first token pattern that matches `text`.
    pub fn first_match(&self, text: &str) -> (r: Option<usize>)
        ensures
            r == first_match(text@),
    {
        proof {
            use_type_invariant(self);
        }
        let m = regex_set_matches(&self.tokens, text);
        if m.len() > 0 {
            Some(m[0])
        } else {
            None
        }
    }

    /// Whether `text` is an opened and unclosed quoted text.
    pub fn is_pending(&self, text: &str) -> (r: bool)
        ensures
            r == is_pending(text@),
    {
        proof {
            use_type_invariant(self);
        }
        let m = regex_set_matches(&self.pending, text);
        m.len() > 0
    }

    /// The token that `value` makes: that of the first token pattern that
    /// matches it ([`token_of_text`]). A text that makes no token is a lexer
    /// error.
    pub fn create(&self, value: &str) -> (r: Result<Token, Error>)
        ensures
            match token_of_text(value@) {
                Ok(t) => r is Ok && r->Ok_0@ == t,
                Err(m) => r is Err && r->Err_0.kind() == ErrorKind::Lexer && r->Err_0.message() == m && r->Err_0.is_plain(),
            },
    {
        match self.first_match(value) {
            Some(pattern) => Token::from_match(pattern, value),
            None => Err(Error::new(ErrorKind::Lexer, "Unidentified symbol")),
        }
    }

    /// Scans `code` into a token stream: see [`lex_view`]. A window that
    /// makes no token is a lexer error.
    pub fn scan(&self, code: &str) -> (r: Result<TokenStream, Error>)
        ensures
            match lex_view(code@) {
                Ok(tokens) => r is Ok && r->Ok_0.tokens() == tokens && r->Ok_0.pointer() == 0,
                Err(m) => r is Err && r->Err_0.kind() == ErrorKind::Lexer && r->Err_0.message() == m && r->Err_0.is_plain(),
            },
    {
        let chars = chars_of(code);
        let mut word: Vec<char> = Vec::new();
        let mut out: Vec<Token> = Vec::new();
        let mut i: usize = 0;
        assert(token_views(out@) =~= Seq::empty());
        while i < chars.len()
            invariant
                i <= chars@.len(),
                chars@ == code@,
                lex_from(code@, i as int, word@, token_views(out@)) == lex_view(code@),
            decreases chars@.len() - i,
        {
            let c = chars[i];
            let ghost before = word@;
            word.push(c);
            let grown = trim_spaces(&word);
            if grown.as_str().as_bytes().len() > 1 && self.first_match(grown.as_str()).is_none() {
                word.pop();
                assert(word@ =~= before);
                let whole = string_of(&word);
                if !self.is_pending(whole.as_str()) {
                    let t = self.create(trim_spaces(&word).as_str())?;
                    push_tweaked(t, &mut out);
                    word.clear();
                    word.push(c);
                } else {
                    word.push(c);
                }
            }
            i += 1;
        }
        if word.len() != 0 && !self.is_pending(string_of(&word).as_str()) {
            let t = trim_spaces(&word);
            if !t.as_str().is_empty() {
                let t = self.create(t.as_str())?;
                push_tweaked(t, &mut out);
            }
        }
        Ok(TokenStream { tokens: out, _pointer: 0 })
    }
}

/// Whether `r` is what scanning `code` gives: the stream of its tokens
/// ([`lex_view`]) with the cursor at its start, or a lexer error with the
/// message of the window that makes no token; and where the patterns of the
/// language do not compile, the lexer error that says so.
pub open spec fn scanned_as(code: Seq<char>, r: Result<TokenStream, Error>) -> bool {
    &&& r is Err ==> r->Err_0.kind() == ErrorKind::Lexer && r->Err_0.is_plain()
    &&& if lexicon_compiles() {
        match lex_view(code) {
            Ok(tokens) => r is Ok && r->Ok_0.tokens() == tokens && r->Ok_0.pointer() == 0,
            Err(m) => r is Err && r->Err_0.message() == m,
        }
    } else {
        r is Err && r->Err_0.message() == no_lexicon()
    }
}

/// Scans `code` into a token stream with the cursor at its start: see
/// [`scanned_as`]. A window that makes no token is a lexer error, and so is
/// every source where the patterns of the language do not compile.
pub fn lex(code: &String) -> (r: Result<TokenStream, Error>)
    ensures
        scanned_as(code@, r),
{
    match Lexicon::new() {
        Some(lexicon) => lexicon.scan(code.as_str()),
        None => Err(Error::new(ErrorKind::Lexer, "The token patterns do not compile")),
    }
}

} // verus!
