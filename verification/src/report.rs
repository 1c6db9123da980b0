//! What a driver reports: errors joined with the source text they arose
//! in, the text that names a place, and how much to log.
//!
//! Nothing here prints. A driver turns these values into diagnostics.
use vstd::prelude::*;
use vstd::string::StringExecFns;
use crate::error::SourceCodeLocation;
use crate::mangle::{digit, nat_text};

verus! {

/// How much a driver is asked to log.
#[derive(Clone, Copy, Debug, PartialEq, Eq, Structural)]
pub enum LogLevel {
    /// Errors only.
    Error,
    /// Warnings and errors.
    Warn,
    /// Messages of general interest, too.
    Info,
    /// Everything that helps to debug a compilation.
    Debug,
    /// Every step of the compilation.
    Trace,
    /// Nothing.
    Off,
}

impl LogLevel {
    /// The level that is logged at when this one is asked for: `Trace`
    /// stays `Trace`; with a symbol to debug, every other level becomes
    /// `Debug`; without one, `Off` still lets errors through and the other
    /// levels stay as they are.
    pub open spec fn effective(self, debugging: bool) -> LogLevel {
        match self {
            LogLevel::Trace => LogLevel::Trace,
            LogLevel::Debug => LogLevel::Debug,
            LogLevel::Off => if debugging {
                LogLevel::Debug
            } else {
                LogLevel::Error
            },
            other => if debugging {
                LogLevel::Debug
            } else {
                other
            },
        }
    }

    /// The level to log at when this one is asked for; `debugging` says
    /// whether a symbol to debug was named.
    pub fn filter(self, debugging: bool) -> (r: LogLevel)
        ensures
            r == self.effective(debugging),
            r != LogLevel::Off,
    {
        match self {
            LogLevel::Trace => LogLevel::Trace,
            LogLevel::Error if !debugging => LogLevel::Error,
            LogLevel::Warn if !debugging => LogLevel::Warn,
            LogLevel::Off if !debugging => LogLevel::Error,
            LogLevel::Info if !debugging => LogLevel::Info,
            _ => LogLevel::Debug,
        }
    }
}

fn write_nat(n: u64, out: &mut String)
    ensures
        final(out)@ == old(out)@ + nat_text(n as nat),
    decreases n,
{
    if n < 10 {
        out.append(digit(n));
    } else {
        write_nat(n / 10, out);
        out.append(digit(n % 10));
        assert(out@ =~= old(out)@ + nat_text(n as nat));
    }
}

/// The name of the file of a place, `unknown` where it has none.
pub open spec fn file_text(filename: Option<String>) -> Seq<char> {
    match filename {
        Some(f) => f@,
        None => "unknown"@,
    }
}

impl SourceCodeLocation {
    /// The offset just behind the place: its offset plus its length, where
    /// that is known, and never more than `usize::MAX`.
    pub open spec fn end(self) -> usize {
        match self.length {
            None => self.offset,
            Some(n) => if self.offset + n > usize::MAX {
                usize::MAX
            } else {
                (self.offset + n) as usize
            },
        }
    }

    /// The text that names the place: file, line, column and offset,
    /// separated by colons.
    pub open spec fn text(self) -> Seq<char> {
        file_text(self.filename) + ":"@ + nat_text(self.line as nat) + ":"@ + nat_text(
            self.column as nat,
        ) + ":"@ + nat_text(self.offset as nat)
    }

    /// The offsets between which the place lies in the source text: from
    /// its offset up to, but not including, its end.
    pub fn span(&self) -> (r: (usize, usize))
        ensures
            r.0 == self.offset,
            r.1 == self.end(),
            r.0 <= r.1,
    {
        match self.length {
            None => (self.offset, self.offset),
            Some(n) => if n > usize::MAX - self.offset {
                (self.offset, usize::MAX)
            } else {
                (self.offset, self.offset + n)
            },
        }
    }

    /// The text that names the place: file, line, column and offset,
    /// separated by colons. A place without a file is in `unknown`.
    pub fn describe(&self) -> (r: String)
        ensures
            r@ == self.text(),
    {
        let mut out = String::new();
        match &self.filename {
            Some(f) => out.append(f.as_str()),
            None => out.append("unknown"),
        }
        out.append(":");
        write_nat(self.line as u64, &mut out);
        out.append(":");
        write_nat(self.column as u64, &mut out);
        out.append(":");
        write_nat(self.offset as u64, &mut out);
        assert(out@ =~= self.text());
        out
    }
}

/// What can go wrong in a build.
#[derive(Debug, PartialEq)]
pub enum Error {
    /// An error together with the place where it arose and the source
    /// text that the place lies in.
    WithSourceCode { loc: SourceCodeLocation, source_code: String, err: Box<Error> },
    /// The source could not be read, or the output not written.
    IO(String),
    /// The source could not be parsed.
    Parse(String),
    /// The program is not sound.
    LirError(crate::error::Error),
    /// The program could not be assembled.
    AsmError(String),
    /// The program failed while it ran.
    InterpreterError(String),
    /// The program could not be built for its target.
    BuildError(String),
    /// The source is of the wrong kind for its target.
    InvalidSource(String),
}

impl Error {
    /// Does `annotated` join this error with the source text `code`?
    ///
    /// An unsound program whose error carries a place becomes that error,
    /// without the outermost place, together with the place and the source
    /// text. Every other error stays as it is.
    pub open spec fn joined_with(self, code: Seq<char>, annotated: Error) -> bool {
        match self {
            Error::LirError(crate::error::Error::Annotated(inner, place)) => {
                &&& annotated matches Error::WithSourceCode { loc, source_code, err }
                &&& loc == place
                &&& source_code@ == code
                &&& *err == Error::LirError(*inner)
            },
            _ => annotated == self,
        }
    }

    /// Joins the error with the source text it arose in, if the error
    /// knows the place.
    pub fn annotate_with_source(self, code: &str) -> (r: Error)
        ensures
            self.joined_with(code@, r),
    {
        match self {
            Error::LirError(crate::error::Error::Annotated(inner, place)) => Error::WithSourceCode {
                loc: place,
                source_code: code.to_owned(),
                err: Box::new(Error::LirError(*inner)),
            },
            other => other,
        }
    }
}

} // verus!
