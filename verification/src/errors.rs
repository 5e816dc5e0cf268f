//! The error taxonomy of the library: a required piece of a page was
//! absent, or the page could not be queried at all.

use vstd::prelude::*;

verus! {

/// Everything that can go wrong while a page is parsed or its
/// resources are fetched.
#[derive(Debug, PartialEq, Eq)]
pub enum SheetError {
    /// A required resource or structural element was absent; the
    /// payload names what was being looked for.
    GetFailed(String),
    /// The page markup could not be queried.
    ParseFailed,
}

impl SheetError {
    /// A human-readable description, in the shape `Failed to get <what>`
    /// for a missing resource.
    pub fn message(&self) -> (r: String)
        ensures
            self is GetFailed ==> r@ == "Failed to get "@ + self->GetFailed_0@,
            self is ParseFailed ==> r@ == "Parse Failed"@,
    {
        match self {
            SheetError::GetFailed(what) => {
                let mut m = String::from_str("Failed to get ");
                m.append(what.as_str());
                m
            },
            SheetError::ParseFailed => String::from_str("Parse Failed"),
        }
    }
}

} // verus!
