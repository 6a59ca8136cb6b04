//! Names of the files that modules and native libraries are kept in.

use crate::errors::{Error, ErrorKind};
use crate::path::{file_name, file_name_of, parent_dir, replace_file_name, with_file_name};
use crate::text::{chars_of, string_of};
use vstd::prelude::*;

verus! {

/// The extension of a source file of the language.
pub const LANGUAGE_EXT: &'static str = "krt";

/// The file that makes a directory a package.
pub const DIR_PKG_INITIALIZER: &'static str = "__pkg__.krt";

/// The directory under the user's home in which packages are installed.
pub const INSTALL_FOLDER: &'static str = ".krusty";

/// The directory under [`INSTALL_FOLDER`] that holds the packages.
pub const INSTALL_SUBFOLDER: &'static str = "pkg";

/// The kind of system that names a dynamic library.
#[derive(Debug, Clone, Copy, PartialEq, Eq, Structural)]
pub enum Platform {
    Windows,
    MacOs,
    Other,
}

/// Whether `s` starts with `prefix`.
pub open spec fn starts_with(s: Seq<char>, prefix: Seq<char>) -> bool {
    prefix.len() <= s.len() && s.subrange(0, prefix.len() as int) == prefix
}

/// Whether `s` ends with `suffix`.
pub open spec fn ends_with(s: Seq<char>, suffix: Seq<char>) -> bool {
    suffix.len() <= s.len() && s.subrange(s.len() - suffix.len(), s.len() as int) == suffix
}

/// `s` with `prefix` before it, unless it starts with it already.
pub open spec fn with_prefix(s: Seq<char>, prefix: Seq<char>) -> Seq<char> {
    if starts_with(s, prefix) {
        s
    } else {
        prefix + s
    }
}

/// `s` with `suffix` after it, unless it ends with it already.
pub open spec fn with_suffix(s: Seq<char>, suffix: Seq<char>) -> Seq<char> {
    if ends_with(s, suffix) {
        s
    } else {
        s + suffix
    }
}

/// The file name of the native library called `fname`: with the extension
/// `.dll` on Windows, with the prefix `lib` and the extension `.dylib` on
/// macOS, with the prefix `lib` and the extension `.so` elsewhere. A prefix
/// or an extension that is there already is not added again.
pub open spec fn native_name(fname: Seq<char>, platform: Platform) -> Seq<char> {
    match platform {
        Platform::Windows => with_suffix(fname, ".dll"@),
        Platform::MacOs => with_suffix(with_prefix(fname, "lib"@), ".dylib"@),
        Platform::Other => with_suffix(with_prefix(fname, "lib"@), ".so"@),
    }
}

/// Whether `s` starts with `prefix`.
fn has_prefix(s: &Vec<char>, prefix: &Vec<char>) -> (r: bool)
    ensures
        r == starts_with(s@, prefix@),
{
    if prefix.len() > s.len() {
        return false;
    }
    let mut i: usize = 0;
    while i < prefix.len()
        invariant
            i <= prefix@.len() <= s@.len(),
            s@.subrange(0, i as int) == prefix@.subrange(0, i as int),
        decreases prefix@.len() - i,
    {
        if s[i] != prefix[i] {
            return false;
        }
        i += 1;
    }
    assert(prefix@.subrange(0, prefix@.len() as int) =~= prefix@);
    true
}

/// Whether `s` ends with `suffix`.
fn has_suffix(s: &Vec<char>, suffix: &Vec<char>) -> (r: bool)
    ensures
        r == ends_with(s@, suffix@),
{
    if suffix.len() > s.len() {
        return false;
    }
    let start = s.len() - suffix.len();
    let mut i: usize = 0;
    while i < suffix.len()
        invariant
            i <= suffix@.len() <= s@.len(),
            start == s@.len() - suffix@.len(),
            s@.len() <= usize::MAX,
            s@.subrange(start as int, start + i) == suffix@.subrange(0, i as int),
        decreases suffix@.len() - i,
    {
        if s[start + i] != suffix[i] {
            return false;
        }
        i += 1;
    }
    assert(suffix@.subrange(0, suffix@.len() as int) =~= suffix@);
    true
}

/// `a` followed by `b`.
fn joined(a: &Vec<char>, b: &Vec<char>) -> (r: Vec<char>)
    ensures
        r@ == a@ + b@,
{
    let mut r: Vec<char> = Vec::new();
    let mut i: usize = 0;
    while i < a.len()
        invariant
            i <= a@.len(),
            r@ == a@.subrange(0, i as int),
        decreases a@.len() - i,
    {
        r.push(a[i]);
        i += 1;
    }
    let mut j: usize = 0;
    while j < b.len()
        invariant
            j <= b@.len(),
            r@ == a@ + b@.subrange(0, j as int),
        decreases b@.len() - j,
    {
        r.push(b[j]);
        j += 1;
    }
    r
}

/// Whether the path `p` has a file name: it is not empty, not the root, and
/// its last component is not `..`.
pub open spec fn has_file_name(p: Seq<char>) -> bool {
    file_name(p).len() > 0 && file_name(p) != parent_dir()
}

/// The path `p` with its file name turned into that of a native library on
/// `platform`.
pub open spec fn native_library(p: Seq<char>, platform: Platform) -> Seq<char> {
    with_file_name(p, native_name(file_name(p), platform))
}

/// The path `p` with its file name turned into that of a native library on
/// `platform`: see [`native_library`] and [`native_name`]. A path without
/// file name is a generic error.
pub fn to_native_dylib_name(p: &str, platform: Platform) -> (r: Result<String, Error>)
    ensures
        match r {
            Ok(q) => has_file_name(p@) && q@ == native_library(p@, platform),
            Err(e) => !has_file_name(p@) && e.kind() == ErrorKind::Generic && e.message()
                == "filename not valid"@ && e.is_plain(),
        },
{
    let file = file_name_of(p);
    let mut name = chars_of(file.as_str());
    let dots = name.len() == 2 && name[0] == '.' && name[1] == '.';
    assert(dots == (name@ == parent_dir())) by {
        if dots {
            assert(name@ =~= parent_dir());
        }
    }
    if name.len() == 0 || dots {
        return Err(Error::new(ErrorKind::Generic, "filename not valid"));
    }
    let lib = chars_of("lib");
    let extension = match platform {
        Platform::Windows => chars_of(".dll"),
        Platform::MacOs => chars_of(".dylib"),
        Platform::Other => chars_of(".so"),
    };
    if !matches!(platform, Platform::Windows) && !has_prefix(&name, &lib) {
        name = joined(&lib, &name);
    }
    if !has_suffix(&name, &extension) {
        name = joined(&name, &extension);
    }
    Ok(replace_file_name(p, string_of(&name).as_str()))
}

} // verus!
