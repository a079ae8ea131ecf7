use vstd::prelude::*;

verus! {

/// The outcome of one executed command: always exactly one of the two.
#[derive(Debug, Clone, PartialEq, Eq)]
pub enum Response {
    Success(String),
    Error(String),
}

impl Response {
    pub open spec fn is_success(&self) -> bool {
        self is Success
    }

    pub open spec fn text(&self) -> Seq<char> {
        match self {
            Response::Success(m) => m@,
            Response::Error(m) => m@,
        }
    }

    /// The human-readable message carried by either variant.
    pub fn message(&self) -> (r: &str)
        ensures
            r@ == self.text(),
    {
        match self {
            Response::Success(m) => m.as_str(),
            Response::Error(m) => m.as_str(),
        }
    }
}

} // verus!
