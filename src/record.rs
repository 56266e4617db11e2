use vstd::prelude::*;

verus! {

/// A row of the `check_code` table: a code, which is the key, and its owner.
#[derive(Clone, Debug)]
pub struct CheckCode {
    code: String,
    owner: String,
}

/// The mathematical value of a row: its code and its owner.
pub type RowView = (Seq<char>, Seq<char>);

impl View for CheckCode {
    type V = RowView;

    closed spec fn view(&self) -> RowView {
        (self.code@, self.owner@)
    }
}

/// A row is well formed when neither its code nor its owner is empty.
pub open spec fn valid_row(r: RowView) -> bool {
    r.0.len() > 0 && r.1.len() > 0
}

impl CheckCode {
    pub fn new(code: String, owner: String) -> (r: CheckCode)
        ensures
            r@ == (code@, owner@),
    {
        CheckCode { code, owner }
    }

    pub fn code(&self) -> (r: &String)
        ensures
            r@ == self@.0,
    {
        &self.code
    }

    pub fn owner(&self) -> (r: &String)
        ensures
            r@ == self@.1,
    {
        &self.owner
    }

    /// Whether the record may be stored: code and owner are both non-empty.
    pub fn is_valid(&self) -> (r: bool)
        ensures
            r == valid_row(self@),
    {
        self.code.as_str().unicode_len() > 0 && self.owner.as_str().unicode_len() > 0
    }

    /// A copy of the record, field by field.
    pub fn copied(&self) -> (r: CheckCode)
        ensures
            r@ == self@,
    {
        CheckCode { code: self.code.clone(), owner: self.owner.clone() }
    }

    /// Takes the record apart into its code and its owner.
    pub fn into_parts(self) -> (r: (String, String))
        ensures
            r.0@ == self@.0,
            r.1@ == self@.1,
    {
        (self.code, self.owner)
    }
}

} // verus!
