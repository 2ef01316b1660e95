use vstd::prelude::*;

verus! {

/// The two failure kinds of the library.
///
/// Every operation either fails on the bus itself (`RemoteCall`) or
/// succeeds on the bus but returns a value that cannot be decoded into
/// the expected semantic type (`Parse`).  The carried string names what
/// failed, for diagnosis.
#[derive(Debug, Clone, PartialEq, Eq)]
pub enum Error {
    /// The remote call failed: unknown object, interface or property,
    /// a rejected mutation, or an unreachable daemon.
    RemoteCall(String),
    /// A successfully returned value could not be converted into the
    /// target type.
    Parse(String),
}

impl Error {
    /// True exactly of the remote-call failure kind.
    pub fn is_remote_call(&self) -> (r: bool)
        ensures
            r == (self is RemoteCall),
    {
        match self {
            Error::RemoteCall(_) => true,
            Error::Parse(_) => false,
        }
    }

    /// True exactly of the decode failure kind.
    pub fn is_parse(&self) -> (r: bool)
        ensures
            r == (self is Parse),
    {
        match self {
            Error::RemoteCall(_) => false,
            Error::Parse(_) => true,
        }
    }

    /// The diagnostic text carried by the error.
    pub fn message(&self) -> (r: &str)
        ensures
            self matches Error::RemoteCall(m) ==> r@ == m@,
            self matches Error::Parse(m) ==> r@ == m@,
    {
        match self {
            Error::RemoteCall(m) => m.as_str(),
            Error::Parse(m) => m.as_str(),
        }
    }
}

} // verus!
