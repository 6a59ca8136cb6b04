//! How values are shown. A value is shown as a sequence of pieces: texts,
//! and numbers, whose text the host gives ([`crate::evaluator::Host`]).

use crate::block::{blocks_view, Block, BlockView};
use crate::number::Number;
use crate::text::{chars_of, framed, string_of};
use crate::token::{Token, TokenView};
use vstd::prelude::*;
use vstd::string::StringExecFns;

verus! {

/// One piece of what is shown: a text, or a number to be shown as the host
/// shows numbers.
#[derive(Debug, Clone)]
pub enum Piece {
    Text(String),
    Number(Number),
}

/// The view of a [`Piece`].
pub enum PieceView {
    Text(Seq<char>),
    Number(u64),
}

impl View for Piece {
    type V = PieceView;

    open spec fn view(&self) -> PieceView {
        match self {
            Piece::Text(s) => PieceView::Text(s@),
            Piece::Number(n) => PieceView::Number(n.bits),
        }
    }
}

/// The views of the pieces of `v`, in order.
pub open spec fn pieces_view(v: Seq<Piece>) -> Seq<PieceView> {
    Seq::new(v.len(), |i: int| v[i]@)
}

/// The text of a token that is no number: a text between double quotes, any
/// other token by the name of its variant and its content.
pub open spec fn token_text(t: TokenView) -> Seq<char> {
    match t {
        TokenView::Number(_) => Seq::empty(),
        TokenView::Text(s) => "\""@ + s + "\""@,
        TokenView::Symbol(s) => "Symbol(\""@ + s + "\")"@,
        TokenView::Arith(c) => "Arith('"@.push(c) + "')"@,
        TokenView::Comparison(s) => "Comparison(\""@ + s + "\")"@,
        TokenView::ScopeStart(c) => "ScopeStart('"@.push(c) + "')"@,
        TokenView::ScopeEnd(c) => "ScopeEnd('"@.push(c) + "')"@,
        TokenView::Separator => "Separator"@,
        TokenView::FuncDef => "FuncDef"@,
        TokenView::FuncCall => "FuncCall"@,
        TokenView::FuncReturn => "FuncReturn"@,
        TokenView::List => "List"@,
        TokenView::Index => "Index"@,
        TokenView::Assign => "Assign"@,
        TokenView::Accessor => "Accessor"@,
        TokenView::Comment => "_Comment"@,
        TokenView::NewLine => "_NewLine"@,
    }
}

/// The piece that shows a token: the number itself, or the text of any other
/// token ([`token_text`]).
pub open spec fn token_piece(t: TokenView) -> PieceView {
    match t {
        TokenView::Number(n) => PieceView::Number(n),
        _ => PieceView::Text(token_text(t)),
    }
}

/// The text of a block that is no token and no list: booleans as `true` and
/// `false`, null as `null`, anything else by a tag.
pub open spec fn tag_text(b: BlockView) -> Seq<char> {
    match b {
        BlockView::Bool(v) => if v {
            "true"@
        } else {
            "false"@
        },
        BlockView::Null => "null"@,
        BlockView::Mod(_) => "<module>"@,
        BlockView::Scope(c) => "Scope('"@.push(c) + "')"@,
        BlockView::Expr(_) => "<Expr>"@,
        BlockView::Func(_) => "<Func>"@,
        BlockView::FuncBody(_) => "<FuncBody>"@,
        BlockView::NativeFunc(_, _) => "<NativeFunc>"@,
        BlockView::ModBody(_) => "<ModBody>"@,
        _ => Seq::empty(),
    }
}

/// `acc` followed by the pieces that show the block `b`: objects and
/// operators as their token, a list as its elements between parentheses and
/// separated by commas, anything else as its tag ([`tag_text`]).
pub open spec fn block_pieces(b: BlockView, acc: Seq<PieceView>) -> Seq<PieceView>
    decreases b, 0nat,
{
    match b {
        BlockView::Object(t) => acc.push(token_piece(t)),
        BlockView::Operator(t) => acc.push(token_piece(t)),
        BlockView::List(l) => list_pieces_from(l, 0, acc.push(PieceView::Text("("@))).push(
            PieceView::Text(")"@),
        ),
        _ => acc.push(PieceView::Text(tag_text(b))),
    }
}

/// `acc` followed by the pieces of `items` from index `i` on, a comma before
/// each but the first of all.
pub open spec fn list_pieces_from(items: Seq<BlockView>, i: int, acc: Seq<PieceView>) -> Seq<
    PieceView,
>
    decreases items, items.len() - i,
{
    if i < 0 || i >= items.len() {
        acc
    } else {
        let lead = if i > 0 {
            acc.push(PieceView::Text(","@))
        } else {
            acc
        };
        list_pieces_from(items, i + 1, block_pieces(items[i], lead))
    }
}

/// `acc` followed by `s` from index `i` on, where each pair of a backslash
/// and `n` stands for a line feed and each pair of a backslash and `t` for a
/// tab.
pub open spec fn unescape_from(s: Seq<char>, i: int, acc: Seq<char>) -> Seq<char>
    decreases s.len() - i,
{
    if i < 0 || i >= s.len() {
        acc
    } else if s[i] == '\\' && i + 1 < s.len() && s[i + 1] == 'n' {
        unescape_from(s, i + 2, acc.push('\n'))
    } else if s[i] == '\\' && i + 1 < s.len() && s[i + 1] == 't' {
        unescape_from(s, i + 2, acc.push('\t'))
    } else {
        unescape_from(s, i + 1, acc.push(s[i]))
    }
}

/// `acc` followed by the pieces of one printed argument: a text with its
/// escapes expanded and without quotes, anything else as [`block_pieces`].
pub open spec fn printed_pieces(b: BlockView, acc: Seq<PieceView>) -> Seq<PieceView> {
    match b {
        BlockView::Object(TokenView::Text(s)) => acc.push(
            PieceView::Text(unescape_from(s, 0, Seq::empty())),
        ),
        _ => block_pieces(b, acc),
    }
}

/// `acc` followed by the printed pieces of `args` from index `i` on, a space
/// before each but the first of all, and a line feed at the end.
pub open spec fn print_pieces_from(args: Seq<BlockView>, i: int, acc: Seq<PieceView>) -> Seq<
    PieceView,
>
    decreases args.len() - i,
{
    if i < 0 || i >= args.len() {
        acc.push(PieceView::Text("\n"@))
    } else {
        let lead = if i > 0 {
            acc.push(PieceView::Text(" "@))
        } else {
            acc
        };
        print_pieces_from(args, i + 1, printed_pieces(args[i], lead))
    }
}

/// What `print` writes for `args`.
pub open spec fn print_pieces(args: Seq<BlockView>) -> Seq<PieceView> {
    print_pieces_from(args, 0, Seq::empty())
}

/// `acc` followed by the text of the pieces from index `i` on: a text as it
/// is, and the number pieces, in order, as the texts of `numbers` from index
/// `k` on. A number piece without a text left for it shows nothing.
pub open spec fn assemble_from(
    pieces: Seq<PieceView>,
    numbers: Seq<Seq<char>>,
    i: int,
    k: int,
    acc: Seq<char>,
) -> Seq<char>
    decreases pieces.len() - i,
{
    if i < 0 || i >= pieces.len() {
        acc
    } else {
        match pieces[i] {
            PieceView::Text(t) => assemble_from(pieces, numbers, i + 1, k, acc + t),
            PieceView::Number(_) => assemble_from(
                pieces,
                numbers,
                i + 1,
                k + 1,
                if 0 <= k < numbers.len() {
                    acc + numbers[k]
                } else {
                    acc
                },
            ),
        }
    }
}

/// The text of `pieces`, where `numbers` are the texts of its numbers, in
/// order.
pub open spec fn assemble_view(pieces: Seq<PieceView>, numbers: Seq<Seq<char>>) -> Seq<char> {
    assemble_from(pieces, numbers, 0, 0, Seq::empty())
}

/// How many of the pieces are numbers.
pub open spec fn number_count(pieces: Seq<PieceView>) -> nat
    decreases pieces.len(),
{
    if pieces.len() == 0 {
        0
    } else {
        number_count(pieces.drop_last()) + if pieces.last() is Number {
            1nat
        } else {
            0nat
        }
    }
}

/// A text piece.
fn text_piece(s: &str) -> (p: Piece)
    ensures
        p@ == PieceView::Text(s@),
{
    Piece::Text(s.to_owned())
}

/// `before`, the character `c` and `after`, in one string.
fn around_char(before: &str, c: char, after: &str) -> (s: String)
    ensures
        s@ == before@.push(c) + after@,
{
    let mut chars = chars_of(before);
    chars.push(c);
    let mut s = string_of(&chars);
    s.append(after);
    s
}

/// `s` with its escapes expanded: see [`unescape_from`].
pub fn unescape(s: &str) -> (r: String)
    ensures
        r@ == unescape_from(s@, 0, Seq::empty()),
{
    let chars = chars_of(s);
    let mut out: Vec<char> = Vec::new();
    let mut i: usize = 0;
    while i < chars.len()
        invariant
            chars@ == s@,
            unescape_from(s@, i as int, out@) == unescape_from(s@, 0, Seq::empty()),
        decreases chars@.len() - i,
    {
        if chars[i] == '\\' && i + 1 < chars.len() && chars[i + 1] == 'n' {
            out.push('\n');
            i += 2;
        } else if chars[i] == '\\' && i + 1 < chars.len() && chars[i + 1] == 't' {
            out.push('\t');
            i += 2;
        } else {
            out.push(chars[i]);
            i += 1;
        }
    }
    string_of(&out)
}

/// Appends one piece.
fn push_piece(acc: &mut Vec<Piece>, p: Piece)
    ensures
        pieces_view(final(acc)@) == pieces_view(old(acc)@).push(p@),
{
    acc.push(p);
    assert(pieces_view(acc@) =~= pieces_view(old(acc)@).push(p@));
}

impl Token {
    /// The piece that shows the token: see [`token_piece`].
    pub fn to_piece(&self) -> (p: Piece)
        ensures
            p@ == token_piece(self@),
    {
        match self {
            Token::Number(n) => Piece::Number(*n),
            Token::Text(t) => Piece::Text(framed("\"", t.as_str(), "\"")),
            Token::Symbol(t) => Piece::Text(framed("Symbol(\"", t.as_str(), "\")")),
            Token::Arith(c) => Piece::Text(around_char("Arith('", *c, "')")),
            Token::Comparison(t) => Piece::Text(framed("Comparison(\"", t.as_str(), "\")")),
            Token::ScopeStart(c) => Piece::Text(around_char("ScopeStart('", *c, "')")),
            Token::ScopeEnd(c) => Piece::Text(around_char("ScopeEnd('", *c, "')")),
            Token::Separator => text_piece("Separator"),
            Token::FuncDef => text_piece("FuncDef"),
            Token::FuncCall => text_piece("FuncCall"),
            Token::FuncReturn => text_piece("FuncReturn"),
            Token::List => text_piece("List"),
            Token::Index => text_piece("Index"),
            Token::Assign => text_piece("Assign"),
            Token::Accessor => text_piece("Accessor"),
            Token::_Comment => text_piece("_Comment"),
            Token::_NewLine => text_piece("_NewLine"),
        }
    }
}

impl Block {
    /// The text of a block that is no token and no list: see [`tag_text`].
    fn tag(&self) -> (s: String)
        ensures
            s@ == tag_text(self@),
    {
        match self {
            Block::Bool(v) => if *v {
                "true".to_owned()
            } else {
                "false".to_owned()
            },
            Block::Null => "null".to_owned(),
            Block::Mod(_) => "<module>".to_owned(),
            Block::Scope(c) => around_char("Scope('", *c, "')"),
            Block::Expr(_) => "<Expr>".to_owned(),
            Block::Func(_) => "<Func>".to_owned(),
            Block::FuncBody(_) => "<FuncBody>".to_owned(),
            Block::NativeFunc(_) => "<NativeFunc>".to_owned(),
            Block::ModBody(_) => "<ModBody>".to_owned(),
            _ => String::new(),
        }
    }

    /// Appends the pieces that show the block: see [`block_pieces`].
    pub fn push_pieces(&self, acc: &mut Vec<Piece>)
        ensures
            pieces_view(final(acc)@) == block_pieces(self@, pieces_view(old(acc)@)),
        decreases *self, 0nat,
    {
        match self {
            Block::Object(t) => push_piece(acc, t.to_piece()),
            Block::Operator(t) => push_piece(acc, t.to_piece()),
            Block::List(l) => {
                push_piece(acc, text_piece("("));
                push_list_pieces(l, acc);
                push_piece(acc, text_piece(")"));
            },
            _ => push_piece(acc, Piece::Text(self.tag())),
        }
    }

    /// The pieces that show the block: see [`block_pieces`].
    pub fn to_pieces(&self) -> (r: Vec<Piece>)
        ensures
            pieces_view(r@) == block_pieces(self@, Seq::empty()),
    {
        let mut acc: Vec<Piece> = Vec::new();
        assert(pieces_view(acc@) =~= Seq::empty());
        self.push_pieces(&mut acc);
        acc
    }

    /// Appends the pieces that `print` writes for the block: see
    /// [`printed_pieces`].
    pub fn push_printed_pieces(&self, acc: &mut Vec<Piece>)
        ensures
            pieces_view(final(acc)@) == printed_pieces(self@, pieces_view(old(acc)@)),
    {
        match self {
            Block::Object(Token::Text(t)) => push_piece(acc, Piece::Text(unescape(t.as_str()))),
            _ => self.push_pieces(acc),
        }
    }
}

/// Appends the pieces of the elements of `l`, separated by commas.
fn push_list_pieces(l: &Vec<Block>, acc: &mut Vec<Piece>)
    ensures
        pieces_view(final(acc)@) == list_pieces_from(
            blocks_view(l@),
            0,
            pieces_view(old(acc)@),
        ),
    decreases *l, 1nat,
{
    let ghost items = blocks_view(l@);
    let mut i: usize = 0;
    while i < l.len()
        invariant
            i <= l@.len(),
            items == blocks_view(l@),
            list_pieces_from(items, i as int, pieces_view(acc@)) == list_pieces_from(
                items,
                0,
                pieces_view(old(acc)@),
            ),
        decreases l@.len() - i,
    {
        if i > 0 {
            push_piece(acc, text_piece(","));
        }
        l[i].push_pieces(acc);
        i += 1;
    }
}

/// What `print` writes for `args`: their printed pieces separated by spaces,
/// and a line feed.
pub fn print_line(args: &Vec<Block>) -> (r: Vec<Piece>)
    ensures
        pieces_view(r@) == print_pieces(blocks_view(args@)),
{
    let ghost items = blocks_view(args@);
    let mut acc: Vec<Piece> = Vec::new();
    assert(pieces_view(acc@) =~= Seq::empty());
    let mut i: usize = 0;
    while i < args.len()
        invariant
            i <= args@.len(),
            items == blocks_view(args@),
            print_pieces_from(items, i as int, pieces_view(acc@)) == print_pieces_from(
                items,
                0,
                Seq::empty(),
            ),
        decreases args@.len() - i,
    {
        if i > 0 {
            push_piece(&mut acc, text_piece(" "));
        }
        args[i].push_printed_pieces(&mut acc);
        i += 1;
    }
    push_piece(&mut acc, text_piece("\n"));
    acc
}

/// The text of `pieces`, where `numbers` are the texts of its numbers, in
/// order: see [`assemble_view`].
pub fn assemble(pieces: &Vec<Piece>, numbers: &Vec<String>) -> (s: String)
    ensures
        s@ == assemble_view(pieces_view(pieces@), Seq::new(numbers@.len(), |i: int| numbers@[i]@)),
{
    let ghost views = pieces_view(pieces@);
    let ghost texts = Seq::new(numbers@.len(), |i: int| numbers@[i]@);
    let mut s = String::new();
    let mut i: usize = 0;
    let mut k: usize = 0;
    while i < pieces.len()
        invariant
            i <= pieces@.len(),
            k <= i,
            views == pieces_view(pieces@),
            texts == Seq::new(numbers@.len(), |i: int| numbers@[i]@),
            assemble_from(views, texts, i as int, k as int, s@) == assemble_view(views, texts),
        decreases pieces@.len() - i,
    {
        match &pieces[i] {
            Piece::Text(t) => {
                s.append(t.as_str());
            },
            Piece::Number(_) => {
                if k < numbers.len() {
                    s.append(numbers[k].as_str());
                }
                k += 1;
            },
        }
        i += 1;
    }
    s
}

} // verus!
