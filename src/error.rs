use vstd::prelude::*;

verus! {

/// Why the watcher could not be built, or why a load failed.
#[derive(Debug)]
pub enum Error {
    /// The path cannot be made absolute or has no parent directory, or the
    /// directory cannot be watched.
    ResolutionError(String),
    /// The file's content could not be decoded.
    ParseError(String),
    /// A filesystem operation failed.
    IoError(String),
}

impl Error {
    /// The text carried by the error, whatever its kind.
    pub fn message(&self) -> (r: &str)
        ensures
            r@ == self.text(),
    {
        match self {
            Error::ResolutionError(m) => m.as_str(),
            Error::ParseError(m) => m.as_str(),
            Error::IoError(m) => m.as_str(),
        }
    }

    pub open spec fn text(&self) -> Seq<char> {
        match self {
            Error::ResolutionError(m) => m@,
            Error::ParseError(m) => m@,
            Error::IoError(m) => m@,
        }
    }
}

} // verus!
