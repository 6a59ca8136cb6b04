//! Paths of modules, as texts whose components are separated by `/`. A path
//! that starts with `/` is absolute: its first component is empty.
//! Separators at the end of a path are passed over where its file name is
//! asked for. What a path means to the machine (its separator, its drives,
//! what is on disk) is the host's to know.

use crate::text::{chars_of, string_of};
use vstd::prelude::*;

verus! {

/// The components of `s` from index `i` on, `cur` being the component read
/// so far and `acc` the components before it.
pub open spec fn split_from(s: Seq<char>, i: int, cur: Seq<char>, acc: Seq<Seq<char>>) -> Seq<
    Seq<char>,
>
    decreases s.len() - i,
{
    if i < 0 || i >= s.len() {
        acc.push(cur)
    } else if s[i] == '/' {
        split_from(s, i + 1, Seq::empty(), acc.push(cur))
    } else {
        split_from(s, i + 1, cur.push(s[i]), acc)
    }
}

/// The components of a path: the texts between its separators.
pub open spec fn split_path(s: Seq<char>) -> Seq<Seq<char>> {
    split_from(s, 0, Seq::empty(), Seq::empty())
}

/// `acc` followed by the components from index `i` on, a separator before
/// each but the first of all.
pub open spec fn join_from(parts: Seq<Seq<char>>, i: int, acc: Seq<char>) -> Seq<char>
    decreases parts.len() - i,
{
    if i < 0 || i >= parts.len() {
        acc
    } else {
        let lead = if i > 0 {
            acc.push('/')
        } else {
            acc
        };
        join_from(parts, i + 1, lead + parts[i])
    }
}

/// The path made of the components `parts`.
pub open spec fn join_path(parts: Seq<Seq<char>>) -> Seq<char> {
    join_from(parts, 0, Seq::empty())
}

/// The component that names the directory above.
pub open spec fn parent_dir() -> Seq<char> {
    seq!['.', '.']
}

/// The component that names the directory itself.
pub open spec fn this_dir() -> Seq<char> {
    seq!['.']
}

/// `acc` without its last component, unless it is empty or only the root.
pub open spec fn pop_dir(acc: Seq<Seq<char>>) -> Seq<Seq<char>> {
    if acc.len() == 0 || (acc.len() == 1 && acc[0].len() == 0) {
        acc
    } else {
        acc.drop_last()
    }
}

/// `acc` followed by the components from index `i` on, where `..` takes
/// the last component away again, and `.` and empty components after the
/// first are left out.
pub open spec fn tidy_from(parts: Seq<Seq<char>>, i: int, acc: Seq<Seq<char>>) -> Seq<Seq<char>>
    decreases parts.len() - i,
{
    if i < 0 || i >= parts.len() {
        acc
    } else if parts[i] == parent_dir() {
        tidy_from(parts, i + 1, pop_dir(acc))
    } else if parts[i] == this_dir() || (parts[i].len() == 0 && i > 0) {
        tidy_from(parts, i + 1, acc)
    } else {
        tidy_from(parts, i + 1, acc.push(parts[i]))
    }
}

/// The components `parts` with every `..` resolved.
pub open spec fn tidy(parts: Seq<Seq<char>>) -> Seq<Seq<char>> {
    tidy_from(parts, 0, Seq::empty())
}

/// The path `p` as seen from the path `current`: `p` itself where there is
/// no current path; otherwise `p` tidied where it is absolute, and else the
/// components of `p` after those of `current` (without its last component,
/// the file, unless `current` is a directory), tidied.
pub open spec fn relative_path(
    current: Option<Seq<char>>,
    current_is_dir: bool,
    p: Seq<char>,
) -> Seq<char> {
    match current {
        None => p,
        Some(cur) => if p.len() > 0 && p[0] == '/' {
            join_path(tidy(split_path(p)))
        } else {
            let base = if current_is_dir {
                split_path(cur)
            } else {
                split_path(cur).drop_last()
            };
            join_path(tidy(base + split_path(p)))
        },
    }
}

/// Whether the path `p` is absolute: it starts with a separator.
pub open spec fn is_absolute(p: Seq<char>) -> bool {
    p.len() > 0 && p[0] == '/'
}

/// The greatest index below `i` at which `s` holds `c`, or `-1`.
pub open spec fn last_index_of(s: Seq<char>, c: char, i: int) -> int
    decreases i,
{
    if i <= 0 || i > s.len() {
        -1
    } else if s[i - 1] == c {
        i - 1
    } else {
        last_index_of(s, c, i - 1)
    }
}

/// The path `p` without the separators at its end.
pub open spec fn without_trailing(p: Seq<char>) -> Seq<char>
    decreases p.len(),
{
    if p.len() > 0 && p.last() == '/' {
        without_trailing(p.drop_last())
    } else {
        p
    }
}

/// What follows the last separator of `q`, or all of it where it has none.
pub open spec fn last_part(q: Seq<char>) -> Seq<char> {
    q.subrange(last_index_of(q, '/', q.len() as int) + 1, q.len() as int)
}

/// The file name of the path `p`: its last component that is not empty.
/// Separators at the end of the path are passed over; the empty path and
/// the root have no file name, which is the empty text.
pub open spec fn file_name(p: Seq<char>) -> Seq<char> {
    last_part(without_trailing(p))
}

/// The path `p` with the extension of its file name replaced by `ext`, or
/// with `ext` added where the file name has no extension. A leading dot
/// starts no extension. A path without file name, or whose file name is
/// `..`, stays as it is.
pub open spec fn with_extension(p: Seq<char>, ext: Seq<char>) -> Seq<char> {
    let q = without_trailing(p);
    let start = last_index_of(q, '/', q.len() as int) + 1;
    let dot = last_index_of(q, '.', q.len() as int);
    if start >= q.len() || file_name(p) == parent_dir() {
        p
    } else if dot > start {
        q.subrange(0, dot).push('.') + ext
    } else {
        q.push('.') + ext
    }
}

/// `name` as seen from `base`: `name` itself where it is absolute, and
/// else `base` and `name` as one path.
pub open spec fn path_under(base: Seq<char>, name: Seq<char>) -> Seq<char> {
    if is_absolute(name) {
        name
    } else if base.len() > 0 && base.last() == '/' {
        base + name
    } else {
        base.push('/') + name
    }
}

/// The path `p` with its file name replaced by `name`: what stands before
/// the file name, and `name`. Separators at the end of the path are
/// dropped.
pub open spec fn with_file_name(p: Seq<char>, name: Seq<char>) -> Seq<char> {
    let q = without_trailing(p);
    q.subrange(0, last_index_of(q, '/', q.len() as int) + 1) + name
}

/// The bases under which the module `name` is looked for, in order: the
/// working directory, the path `relative` as seen from the importing
/// module, and the package directory under the user's home, if there is a
/// home.
pub open spec fn module_bases(
    name: Seq<char>,
    cwd: Seq<char>,
    relative: Seq<char>,
    home: Option<Seq<char>>,
) -> Seq<Seq<char>> {
    let first = seq![path_under(cwd, name), relative];
    match home {
        Some(h) => first.push(path_under(path_under(path_under(h, ".krusty"@), "pkg"@), name)),
        None => first,
    }
}

/// The file that importing the path `p` reads: the package initialiser
/// inside it where `p` is a directory; `p` itself where its file name is
/// `krt`; and else `p` with the extension `krt`.
pub open spec fn import_file(p: Seq<char>, is_dir: bool) -> Seq<char> {
    if is_dir {
        path_under(p, "__pkg__.krt"@)
    } else if file_name(p) == "krt"@ {
        p
    } else {
        with_extension(p, "krt"@)
    }
}

/// The components of a path: see [`split_path`]. There is always at least
/// one.
pub fn split(s: &str) -> (parts: Vec<Vec<char>>)
    ensures
        Seq::new(parts@.len(), |i: int| parts@[i]@) == split_path(s@),
        parts@.len() > 0,
{
    let chars = chars_of(s);
    let mut parts: Vec<Vec<char>> = Vec::new();
    let mut cur: Vec<char> = Vec::new();
    let mut i: usize = 0;
    assert(Seq::new(parts@.len(), |k: int| parts@[k]@) =~= Seq::<Seq<char>>::empty());
    while i < chars.len()
        invariant
            chars@ == s@,
            split_from(s@, i as int, cur@, Seq::new(parts@.len(), |k: int| parts@[k]@))
                == split_path(s@),
        decreases chars@.len() - i,
    {
        let ghost before = Seq::new(parts@.len(), |k: int| parts@[k]@);
        if chars[i] == '/' {
            parts.push(cur);
            assert(Seq::new(parts@.len(), |k: int| parts@[k]@) =~= before.push(cur@));
            cur = Vec::new();
        } else {
            cur.push(chars[i]);
        }
        i += 1;
    }
    parts.push(cur);
    parts
}

/// Appends the characters of `more` to `acc`.
fn append(acc: &mut Vec<char>, more: &Vec<char>)
    ensures
        final(acc)@ == old(acc)@ + more@,
{
    let mut i: usize = 0;
    while i < more.len()
        invariant
            i <= more@.len(),
            acc@ == old(acc)@ + more@.subrange(0, i as int),
        decreases more@.len() - i,
    {
        acc.push(more[i]);
        i += 1;
    }
}

/// The path made of the components `parts`: see [`join_path`].
pub fn join(parts: &Vec<Vec<char>>) -> (s: String)
    ensures
        s@ == join_path(Seq::new(parts@.len(), |i: int| parts@[i]@)),
{
    let ghost views = Seq::new(parts@.len(), |k: int| parts@[k]@);
    let mut acc: Vec<char> = Vec::new();
    let mut i: usize = 0;
    while i < parts.len()
        invariant
            i <= parts@.len(),
            views == Seq::new(parts@.len(), |k: int| parts@[k]@),
            join_from(views, i as int, acc@) == join_path(views),
        decreases parts@.len() - i,
    {
        if i > 0 {
            acc.push('/');
        }
        append(&mut acc, &parts[i]);
        i += 1;
    }
    string_of(&acc)
}

/// Whether `c` is the component `..`.
fn is_parent_dir(c: &Vec<char>) -> (r: bool)
    ensures
        r == (c@ == parent_dir()),
{
    let r = c.len() == 2 && c[0] == '.' && c[1] == '.';
    assert(r == (c@ =~= parent_dir()));
    r
}

/// Whether `c` is the component `.`.
fn is_this_dir(c: &Vec<char>) -> (r: bool)
    ensures
        r == (c@ == this_dir()),
{
    let r = c.len() == 1 && c[0] == '.';
    assert(r == (c@ =~= this_dir()));
    r
}

/// The components `parts` with every `..` resolved: see [`tidy`].
pub fn tidied(parts: Vec<Vec<char>>) -> (out: Vec<Vec<char>>)
    ensures
        Seq::new(out@.len(), |i: int| out@[i]@) == tidy(Seq::new(parts@.len(), |i: int| parts@[i]@)),
{
    let ghost views = Seq::new(parts@.len(), |k: int| parts@[k]@);
    let mut out: Vec<Vec<char>> = Vec::new();
    let mut i: usize = 0;
    assert(Seq::new(out@.len(), |k: int| out@[k]@) =~= Seq::<Seq<char>>::empty());
    while i < parts.len()
        invariant
            i <= parts@.len(),
            views == Seq::new(parts@.len(), |k: int| parts@[k]@),
            tidy_from(views, i as int, Seq::new(out@.len(), |k: int| out@[k]@)) == tidy(views),
        decreases parts@.len() - i,
    {
        let ghost before = Seq::new(out@.len(), |k: int| out@[k]@);
        if is_parent_dir(&parts[i]) {
            if !(out.len() == 0 || (out.len() == 1 && out[0].len() == 0)) {
                out.pop();
                assert(Seq::new(out@.len(), |k: int| out@[k]@) =~= before.drop_last());
            }
        } else if is_this_dir(&parts[i]) || (parts[i].len() == 0 && i > 0) {
        } else {
            out.push(parts[i].clone());
            assert(Seq::new(out@.len(), |k: int| out@[k]@) =~= before.push(views[i as int]));
        }
        i += 1;
    }
    out
}

/// The path `p` as seen from the path `current`: see [`relative_path`].
pub fn relative(current: &Option<String>, current_is_dir: bool, p: &str) -> (r: String)
    ensures
        r@ == relative_path(
            match *current {
                Some(c) => Some(c@),
                None => None,
            },
            current_is_dir,
            p@,
        ),
{
    match current {
        None => p.to_owned(),
        Some(cur) => {
            let target = chars_of(p);
            if target.len() > 0 && target[0] == '/' {
                join(&tidied(split(p)))
            } else {
                let mut base = split(cur.as_str());
                let ghost whole = Seq::new(base@.len(), |k: int| base@[k]@);
                if !current_is_dir {
                    base.pop();
                    assert(Seq::new(base@.len(), |k: int| base@[k]@) =~= whole.drop_last());
                }
                let ghost dir = Seq::new(base@.len(), |k: int| base@[k]@);
                let mut rest = split(p);
                let ghost tail = Seq::new(rest@.len(), |k: int| rest@[k]@);
                base.append(&mut rest);
                assert(Seq::new(base@.len(), |k: int| base@[k]@) =~= dir + tail);
                join(&tidied(base))
            }
        },
    }
}

/// The greatest index below `i` at which `s` holds `c`, if there is one.
fn last_index(s: &Vec<char>, c: char) -> (r: Option<usize>)
    ensures
        match r {
            Some(k) => k == last_index_of(s@, c, s@.len() as int) && k < s@.len(),
            None => last_index_of(s@, c, s@.len() as int) == -1,
        },
{
    let mut i: usize = s.len();
    while i > 0
        invariant
            i <= s@.len(),
            last_index_of(s@, c, i as int) == last_index_of(s@, c, s@.len() as int),
        decreases i,
    {
        if s[i - 1] == c {
            return Some(i - 1);
        }
        i -= 1;
    }
    None
}

/// The characters of the path `p` without the separators at its end: see
/// [`without_trailing`].
fn trimmed(p: &str) -> (r: Vec<char>)
    ensures
        r@ == without_trailing(p@),
{
    let mut chars = chars_of(p);
    while chars.len() > 0 && chars[chars.len() - 1] == '/'
        invariant
            without_trailing(chars@) == without_trailing(p@),
        decreases chars@.len(),
    {
        let ghost before = chars@;
        chars.pop();
        assert(chars@ =~= before.drop_last());
    }
    chars
}

/// Where the file name of the path `s` starts.
fn name_start(s: &Vec<char>) -> (r: usize)
    ensures
        r == last_index_of(s@, '/', s@.len() as int) + 1,
        r <= s@.len(),
{
    let len = s.len();
    match last_index(s, '/') {
        Some(k) => k + 1,
        None => 0,
    }
}

/// Whether the characters of `s` from `start` on are those of `t`.
fn tail_is(s: &Vec<char>, start: usize, t: &Vec<char>) -> (r: bool)
    requires
        start <= s@.len(),
    ensures
        r == (s@.subrange(start as int, s@.len() as int) == t@),
{
    if s.len() - start != t.len() {
        return false;
    }
    let mut i: usize = 0;
    while i < t.len()
        invariant
            i <= t@.len(),
            start + t@.len() == s@.len(),
            s@.len() <= usize::MAX,
            forall|k: int| 0 <= k < i ==> s@[start + k] == t@[k],
        decreases t@.len() - i,
    {
        if s[start + i] != t[i] {
            return false;
        }
        i += 1;
    }
    assert(s@.subrange(start as int, s@.len() as int) =~= t@);
    true
}

/// The path `p` with the extension `ext`: see [`with_extension`].
pub fn set_extension(p: &str, ext: &str) -> (r: String)
    ensures
        r@ == with_extension(p@, ext@),
{
    let chars = trimmed(p);
    let start = name_start(&chars);
    let mut dots: Vec<char> = Vec::new();
    dots.push('.');
    dots.push('.');
    assert(dots@ =~= parent_dir());
    if start >= chars.len() || tail_is(&chars, start, &dots) {
        return p.to_owned();
    }
    let mut out: Vec<char> = Vec::new();
    let stem: usize = match last_index(&chars, '.') {
        Some(dot) => {
            if dot > start {
                dot
            } else {
                chars.len()
            }
        },
        None => chars.len(),
    };
    let mut i: usize = 0;
    while i < stem
        invariant
            i <= stem <= chars@.len(),
            out@ == chars@.subrange(0, i as int),
        decreases stem - i,
    {
        out.push(chars[i]);
        i += 1;
    }
    out.push('.');
    append(&mut out, &chars_of(ext));
    string_of(&out)
}

/// Whether the path `p` is absolute: see [`is_absolute`].
pub fn absolute(p: &str) -> (r: bool)
    ensures
        r == is_absolute(p@),
{
    let chars = chars_of(p);
    chars.len() > 0 && chars[0] == '/'
}

/// `name` as seen from `base`: see [`path_under`].
pub fn under(base: &str, name: &str) -> (r: String)
    ensures
        r@ == path_under(base@, name@),
{
    if absolute(name) {
        return name.to_owned();
    }
    let mut out = chars_of(base);
    if !(out.len() > 0 && out[out.len() - 1] == '/') {
        out.push('/');
    }
    append(&mut out, &chars_of(name));
    string_of(&out)
}

/// The file that importing the path `p` reads: see [`import_file`].
pub fn normalize_import_path(p: &str, is_dir: bool) -> (r: String)
    ensures
        r@ == import_file(p@, is_dir),
{
    if is_dir {
        under(p, "__pkg__.krt")
    } else {
        let chars = trimmed(p);
        let start = name_start(&chars);
        if tail_is(&chars, start, &chars_of("krt")) {
            p.to_owned()
        } else {
            set_extension(p, "krt")
        }
    }
}

/// The file name of the path `p`, and `p` with its file name replaced by
/// `name`: see [`file_name`] and [`with_file_name`].
pub fn replace_file_name(p: &str, name: &str) -> (r: String)
    ensures
        r@ == with_file_name(p@, name@),
{
    let chars = trimmed(p);
    let start = name_start(&chars);
    let mut out: Vec<char> = Vec::new();
    let mut i: usize = 0;
    while i < start
        invariant
            i <= start <= chars@.len(),
            out@ == chars@.subrange(0, i as int),
        decreases start - i,
    {
        out.push(chars[i]);
        i += 1;
    }
    append(&mut out, &chars_of(name));
    string_of(&out)
}

/// The file name of the path `p`: see [`file_name`].
pub fn file_name_of(p: &str) -> (r: String)
    ensures
        r@ == file_name(p@),
{
    let chars = trimmed(p);
    let start = name_start(&chars);
    crate::text::string_of_range(&chars, start, chars.len())
}

/// The bases under which the module `name` is looked for: see
/// [`module_bases`].
pub fn bases_of_module(name: &str, cwd: &str, relative: String, home: &Option<String>) -> (r: Vec<
    String,
>)
    ensures
        Seq::new(r@.len(), |i: int| r@[i]@) == module_bases(
            name@,
            cwd@,
            relative@,
            match *home {
                Some(h) => Some(h@),
                None => None,
            },
        ),
{
    let mut r: Vec<String> = Vec::new();
    r.push(under(cwd, name));
    r.push(relative);
    match home {
        Some(h) => {
            let folder = under(h.as_str(), ".krusty");
            let packages = under(folder.as_str(), "pkg");
            r.push(under(packages.as_str(), name));
        },
        None => {},
    }
    r
}

} // verus!
