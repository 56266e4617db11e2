use vstd::prelude::*;

verus! {

/// Kinds of failure that a CRUD operation reports.
#[derive(Clone, Copy, Debug, PartialEq, Eq, Structural)]
pub enum CrudError {
    /// A malformed record or key.
    Validation,
    /// No row has the requested key.
    NotFound,
    /// A row with the same key already exists.
    Conflict,
    /// The entity does not implement the operation.
    Unsupported,
    /// The store or its driver failed.
    Backend,
}

/// What an operation whose payload is "did it happen" reports.
#[derive(Clone, Debug)]
pub enum Status {
    Success,
    Failure(String),
}

/// The mathematical value of a `Status`.
pub enum StatusView {
    Success,
    Failure(Seq<char>),
}

impl View for Status {
    type V = StatusView;

    open spec fn view(&self) -> StatusView {
        match self {
            Status::Success => StatusView::Success,
            Status::Failure(m) => StatusView::Failure(m@),
        }
    }
}

/// The message of the status that reports a missing key.
pub open spec fn not_found_text() -> Seq<char> {
    "not found"@
}

impl Status {
    pub fn ok() -> (s: Status)
        ensures
            s@ == StatusView::Success,
    {
        Status::Success
    }

    pub fn err(message: String) -> (s: Status)
        ensures
            s@ == StatusView::Failure(message@),
    {
        Status::Failure(message)
    }

    pub fn is_ok(&self) -> (r: bool)
        ensures
            r == (self@ == StatusView::Success),
    {
        match self {
            Status::Success => true,
            Status::Failure(_) => false,
        }
    }

    /// The status that reports a missing key.
    pub fn not_found() -> (s: Status)
        ensures
            s@ == StatusView::Failure(not_found_text()),
    {
        Status::Failure(String::from_str("not found"))
    }
}

} // verus!
