use vstd::prelude::*;

verus! {

/// Why a store operation failed. Every failure of the engine, a malformed
/// identifier included, is a `Surreal`; `IO` is a failure below the engine.
#[derive(Debug)]
pub enum Error {
    Surreal(String),
    IO(String),
}

impl Error {
    /// The text that the failure carries.
    pub open spec fn text(self) -> Seq<char> {
        match self {
            Error::Surreal(m) => m@,
            Error::IO(m) => m@,
        }
    }

    /// The failure's text, as it is shown to a caller.
    pub fn message(&self) -> (m: String)
        ensures
            m@ == self.text(),
    {
        match self {
            Error::Surreal(m) => m.clone(),
            Error::IO(m) => m.clone(),
        }
    }
}

} // verus!
