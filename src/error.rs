use vstd::prelude::*;

verus! {

/// Why a store operation failed.
#[derive(Clone, Debug, PartialEq, Eq)]
pub enum StoreError {
    /// The backing file or its directory could not be read, created or written.
    Io(String),
    /// The backing file does not hold a well-formed document.
    Parse(String),
}

impl StoreError {
    /// The human-readable message carried by the error.
    pub open spec fn message_view(&self) -> Seq<char> {
        match self {
            StoreError::Io(m) => m@,
            StoreError::Parse(m) => m@,
        }
    }

    /// Returns the message carried by the error, whatever its kind.
    pub fn message(&self) -> (r: String)
        ensures
            r@ == self.message_view(),
    {
        match self {
            StoreError::Io(m) => m.clone(),
            StoreError::Parse(m) => m.clone(),
        }
    }

    /// Whether the error comes from a malformed document.
    pub fn is_parse(&self) -> (r: bool)
        ensures
            r == (self is Parse),
    {
        match self {
            StoreError::Io(_) => false,
            StoreError::Parse(_) => true,
        }
    }
}

} // verus!
