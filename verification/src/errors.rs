//! The error taxonomy shared by every stage of the interpreter.

use vstd::prelude::*;

verus! {

/// What went wrong, and in which stage. Each variant carries a message, the
/// name of the file concerned (empty when unknown) and a line number (`-1`
/// when unknown).
#[derive(Debug, Clone)]
pub enum Error {
    GenericError { msg: String, fname: String, lino: i32 },
    LexerError { msg: String, fname: String, lino: i32 },
    ParserError { msg: String, fname: String, lino: i32 },
    EvalError { msg: String, fname: String, lino: i32 },
    ImportError { msg: String, fname: String, lino: i32 },
    SysExit { msg: String, fname: String, lino: i32 },
}

/// The stage an [`Error`] belongs to, without its payload.
#[derive(Debug, Clone, Copy, PartialEq, Eq, Structural)]
pub enum ErrorKind {
    Generic,
    Lexer,
    Parser,
    Eval,
    Import,
    SysExit,
}

/// What every error of the interpreter can tell about itself.
pub trait KrustyError {
    /// The name of the error's kind.
    fn name(&self) -> String;

    /// The human-readable message.
    fn msg(&self) -> &String;
}

impl Error {
    /// The kind of this error.
    pub open spec fn kind(&self) -> ErrorKind {
        match self {
            Error::GenericError { .. } => ErrorKind::Generic,
            Error::LexerError { .. } => ErrorKind::Lexer,
            Error::ParserError { .. } => ErrorKind::Parser,
            Error::EvalError { .. } => ErrorKind::Eval,
            Error::ImportError { .. } => ErrorKind::Import,
            Error::SysExit { .. } => ErrorKind::SysExit,
        }
    }

    /// The message carried by this error.
    pub open spec fn message(&self) -> Seq<char> {
        match self {
            Error::GenericError { msg, .. } => msg@,
            Error::LexerError { msg, .. } => msg@,
            Error::ParserError { msg, .. } => msg@,
            Error::EvalError { msg, .. } => msg@,
            Error::ImportError { msg, .. } => msg@,
            Error::SysExit { msg, .. } => msg@,
        }
    }

    /// The line number carried by this error.
    pub open spec fn line(&self) -> int {
        match self {
            Error::GenericError { lino, .. } => *lino as int,
            Error::LexerError { lino, .. } => *lino as int,
            Error::ParserError { lino, .. } => *lino as int,
            Error::EvalError { lino, .. } => *lino as int,
            Error::ImportError { lino, .. } => *lino as int,
            Error::SysExit { lino, .. } => *lino as int,
        }
    }

    /// The name of the file that this error is about; empty when unknown.
    pub open spec fn file_name(&self) -> Seq<char> {
        match self {
            Error::GenericError { fname, .. } => fname@,
            Error::LexerError { fname, .. } => fname@,
            Error::ParserError { fname, .. } => fname@,
            Error::EvalError { fname, .. } => fname@,
            Error::ImportError { fname, .. } => fname@,
            Error::SysExit { fname, .. } => fname@,
        }
    }

    /// Whether this error names no file and no line.
    pub open spec fn is_plain(&self) -> bool {
        self.file_name() == Seq::<char>::empty() && self.line() == -1
    }

    /// The name that `kind` goes by.
    pub open spec fn kind_name(kind: ErrorKind) -> Seq<char> {
        match kind {
            ErrorKind::Generic => "GenericError"@,
            ErrorKind::Lexer => "LexerError"@,
            ErrorKind::Parser => "ParserError"@,
            ErrorKind::Eval => "EvalError"@,
            ErrorKind::Import => "ImportError"@,
            ErrorKind::SysExit => "SysExit"@,
        }
    }

    /// An error of the given kind with the given message, no file name and
    /// line `-1`.
    pub fn new(kind: ErrorKind, msg: &str) -> (e: Error)
        ensures
            e.kind() == kind,
            e.message() == msg@,
            e.file_name() == Seq::<char>::empty(),
            e.line() == -1,
    {
        let msg = msg.to_owned();
        let fname = String::new();
        let lino: i32 = -1;
        match kind {
            ErrorKind::Generic => Error::GenericError { msg, fname, lino },
            ErrorKind::Lexer => Error::LexerError { msg, fname, lino },
            ErrorKind::Parser => Error::ParserError { msg, fname, lino },
            ErrorKind::Eval => Error::EvalError { msg, fname, lino },
            ErrorKind::Import => Error::ImportError { msg, fname, lino },
            ErrorKind::SysExit => Error::SysExit { msg, fname, lino },
        }
    }

    /// The kind of this error, as a value.
    pub fn get_kind(&self) -> (k: ErrorKind)
        ensures
            k == self.kind(),
    {
        match self {
            Error::GenericError { .. } => ErrorKind::Generic,
            Error::LexerError { .. } => ErrorKind::Lexer,
            Error::ParserError { .. } => ErrorKind::Parser,
            Error::EvalError { .. } => ErrorKind::Eval,
            Error::ImportError { .. } => ErrorKind::Import,
            Error::SysExit { .. } => ErrorKind::SysExit,
        }
    }

    /// Whether this error is the orderly-termination marker raised by `exit()`.
    pub fn is_sysexit(&self) -> (b: bool)
        ensures
            b == (self.kind() == ErrorKind::SysExit),
    {
        match self {
            Error::SysExit { .. } => true,
            _ => false,
        }
    }
}

impl KrustyError for Error {
    fn name(&self) -> (n: String)
        ensures
            n@ == Error::kind_name(self.kind()),
    {
        match self {
            Error::GenericError { .. } => "GenericError".to_owned(),
            Error::LexerError { .. } => "LexerError".to_owned(),
            Error::ParserError { .. } => "ParserError".to_owned(),
            Error::EvalError { .. } => "EvalError".to_owned(),
            Error::ImportError { .. } => "ImportError".to_owned(),
            Error::SysExit { .. } => "SysExit".to_owned(),
        }
    }

    fn msg(&self) -> (m: &String)
        ensures
            m@ == self.message(),
    {
        match self {
            Error::GenericError { msg, .. } => msg,
            Error::LexerError { msg, .. } => msg,
            Error::ParserError { msg, .. } => msg,
            Error::EvalError { msg, .. } => msg,
            Error::ImportError { msg, .. } => msg,
            Error::SysExit { msg, .. } => msg,
        }
    }
}

} // verus!
