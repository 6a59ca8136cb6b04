//! A host that keeps everything in memory: what is printed is recorded, and
//! the files are a table of sources.

use crate::block::Block;
use crate::errors::{Error, ErrorKind};
use crate::evaluator::{Host, NameSpace};
use crate::number::{double_text, double_to_text};
use crate::pkg::Platform;
use vstd::prelude::*;
use vstd::string::StringExecFns;

verus! {

/// The text of one file, under the path that is its name.
#[derive(Debug, Clone)]
pub struct Source {
    pub name: String,
    pub text: String,
}

/// A host without files and without libraries.
#[derive(Debug)]
pub struct Recorder {
    /// Everything printed so far.
    pub printed: String,
    /// The files that there are.
    pub sources: Vec<Source>,
}

impl Recorder {
    /// A recorder with nothing printed and no modules.
    pub fn new() -> (r: Recorder)
        ensures
            r.printed@ == Seq::<char>::empty(),
            r.sources@.len() == 0,
    {
        Recorder { printed: String::new(), sources: Vec::new() }
    }

    /// Adds the file `name` with the content `text`.
    pub fn add_source(&mut self, name: &str, text: &str)
        ensures
            final(self).printed == old(self).printed,
            final(self).sources@.len() == old(self).sources@.len() + 1,
            final(self).sources@.last().name@ == name@,
            final(self).sources@.last().text@ == text@,
    {
        self.sources.push(Source { name: name.to_owned(), text: text.to_owned() });
    }
}

impl Recorder {
    /// The index of the first source recorded under `path`.
    fn find(&self, path: &String) -> (r: Option<usize>)
        ensures
            match r {
                Some(i) => i < self.sources@.len() && self.sources@[i as int].name@ == path@
                    && forall|j: int| 0 <= j < i ==> (#[trigger] self.sources@[j]).name@ != path@,
                None => forall|j: int|
                    0 <= j < self.sources@.len() ==> (#[trigger] self.sources@[j]).name@ != path@,
            },
    {
        let mut i: usize = 0;
        while i < self.sources.len()
            invariant
                i <= self.sources@.len(),
                forall|j: int| 0 <= j < i ==> (#[trigger] self.sources@[j]).name@ != path@,
            decreases self.sources@.len() - i,
        {
            if self.sources[i].name == *path {
                return Some(i);
            }
            i += 1;
        }
        None
    }
}

impl Host for Recorder {
    /// Appends `text` to what was printed.
    fn print(&mut self, text: &String)
        ensures
            final(self).printed@ == old(self).printed@ + text@,
            final(self).sources == old(self).sources,
    {
        self.printed.append(text.as_str());
    }

    /// The working directory is the root, `/`.
    fn current_dir(&mut self) -> (r: String)
        ensures
            *final(self) == *old(self),
            r@ == "/"@,
    {
        "/".to_owned()
    }

    /// There is no home directory.
    fn home_dir(&mut self) -> (r: Option<String>)
        ensures
            *final(self) == *old(self),
            r is None,
    {
        None
    }

    /// There are no directories.
    fn is_dir(&mut self, path: &String) -> (r: bool)
        ensures
            *final(self) == *old(self),
            !r,
    {
        false
    }

    /// The files are the sources recorded.
    fn is_file(&mut self, path: &String) -> (r: bool)
        ensures
            *final(self) == *old(self),
            r == exists|i: int|
                0 <= i < old(self).sources@.len() && (#[trigger] old(self).sources@[i]).name@
                    == path@,
    {
        self.find(path).is_some()
    }

    /// The path of a file is its own absolute path; any other path is an
    /// import error.
    fn canonical_path(&mut self, path: &String) -> (r: Result<String, Error>)
        ensures
            *final(self) == *old(self),
            r matches Ok(p) ==> p@ == path@,
            r matches Err(e) ==> e.kind() == ErrorKind::Import,
    {
        match self.find(path) {
            Some(_) => Ok(path.clone()),
            None => Err(Error::new(ErrorKind::Import, "Not found")),
        }
    }

    /// The text of the first source recorded under `path`; an import error
    /// where there is none.
    fn read_file(&mut self, path: &String) -> (r: Result<String, Error>)
        ensures
            *final(self) == *old(self),
            r matches Ok(text) ==> exists|i: int|
                0 <= i < old(self).sources@.len() && (#[trigger] old(self).sources@[i]).name@
                    == path@ && text@ == old(self).sources@[i].text@,
            r matches Err(e) ==> e.kind() == ErrorKind::Import && forall|i: int|
                0 <= i < old(self).sources@.len() ==> (#[trigger] old(self).sources@[i]).name@
                    != path@,
    {
        match self.find(path) {
            Some(i) => Ok(self.sources[i].text.clone()),
            None => Err(Error::new(ErrorKind::Import, "Not found")),
        }
    }

    /// Libraries would be named as on a system that is neither Windows nor
    /// macOS.
    fn platform(&mut self) -> (r: Platform)
        ensures
            *final(self) == *old(self),
            r == Platform::Other,
    {
        Platform::Other
    }

    /// Numbers are shown as `rustc_apfloat` formats a double, which is not
    /// how `f64` is formatted: a number that is no short binary fraction
    /// comes out with seventeen digits, and a large one with an exponent. A
    /// host that is to show numbers otherwise answers for itself.
    fn number_text(&mut self, bits: u64) -> (r: String)
        ensures
            *final(self) == *old(self),
            r@ == double_text(bits),
    {
        double_to_text(bits)
    }

    /// There are no libraries: always an import error.
    fn load_library(&mut self, path: &String) -> (r: Result<Vec<String>, Error>)
        ensures
            *final(self) == *old(self),
            r is Err,
            r->Err_0.kind() == ErrorKind::Import,
    {
        Err(Error::new(ErrorKind::Import, "Not found"))
    }

    /// There are no native functions: always an evaluation error.
    fn call_native(
        &mut self,
        origin: &String,
        name: &String,
        ns: &NameSpace,
        args: &Vec<Block>,
    ) -> (r: Result<Block, Error>)
        ensures
            *final(self) == *old(self),
            r is Err,
            r->Err_0.kind() == ErrorKind::Eval,
    {
        Err(Error::new(ErrorKind::Eval, "function not defined"))
    }
}

} // verus!
