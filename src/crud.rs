use vstd::prelude::*;
use crate::record::{CheckCode, RowView, valid_row};
use crate::status::{CrudError, Status, StatusView, not_found_text};
use crate::table::{
    CheckCodeTable,
    GatewayError,
    has_code,
    index_of_code,
    rows_with_code,
    without_code,
};

verus! {

/// The kind of failure that a CRUD operation reports for a failure of the store.
pub open spec fn classify_spec(e: GatewayError) -> CrudError {
    match e {
        GatewayError::UniqueViolation => CrudError::Conflict,
        GatewayError::RowNotFound => CrudError::NotFound,
        GatewayError::TooManyRows => CrudError::Backend,
        GatewayError::Driver => CrudError::Backend,
    }
}

/// The status of a delete that removed `affected` rows.
pub open spec fn delete_status(affected: nat) -> StatusView {
    if affected > 0 {
        StatusView::Success
    } else {
        StatusView::Failure(not_found_text())
    }
}

pub open spec fn status_result_view(r: Result<Status, CrudError>) -> Result<StatusView, CrudError> {
    match r {
        Ok(s) => Ok(s@),
        Err(e) => Err(e),
    }
}

pub open spec fn record_result_view(r: Result<CheckCode, CrudError>) -> Result<RowView, CrudError> {
    match r {
        Ok(c) => Ok(c@),
        Err(e) => Err(e),
    }
}

/// The table and the outcome after `create(r)` on `rows`.
pub open spec fn create_spec(rows: Seq<RowView>, r: RowView) -> (Seq<RowView>, Result<StatusView, CrudError>) {
    if !valid_row(r) {
        (rows, Err(CrudError::Validation))
    } else if has_code(rows, r.0) {
        (rows, Err(CrudError::Conflict))
    } else {
        (rows.push(r), Ok(StatusView::Success))
    }
}

/// The table and the outcome after `delete(k)` on `rows`.
pub open spec fn delete_spec(rows: Seq<RowView>, k: Seq<char>) -> (Seq<RowView>, Result<StatusView, CrudError>) {
    (without_code(rows, k), Ok(delete_status(if has_code(rows, k) { 1nat } else { 0nat })))
}

/// The outcome of `read_by_key(k)` on `rows`.
pub open spec fn read_by_key_spec(rows: Seq<RowView>, k: Seq<char>) -> Result<RowView, CrudError> {
    if has_code(rows, k) {
        Ok(rows[index_of_code(rows, k)])
    } else {
        Err(CrudError::NotFound)
    }
}

/// Maps a failure of the store to the kind of failure a CRUD operation reports.
pub fn classify(e: GatewayError) -> (r: CrudError)
    ensures
        r == classify_spec(e),
{
    match e {
        GatewayError::UniqueViolation => CrudError::Conflict,
        GatewayError::RowNotFound => CrudError::NotFound,
        GatewayError::TooManyRows => CrudError::Backend,
        GatewayError::Driver => CrudError::Backend,
    }
}

/// The one row of a query that must find exactly one.
pub fn fetch_one(rows: Vec<CheckCode>) -> (r: Result<CheckCode, GatewayError>)
    ensures
        rows@.len() == 0 ==> r == Err::<CheckCode, GatewayError>(GatewayError::RowNotFound),
        rows@.len() > 1 ==> r == Err::<CheckCode, GatewayError>(GatewayError::TooManyRows),
        rows@.len() == 1 ==> (r matches Ok(c) && c@ == rows@[0]@),
{
    let mut rows = rows;
    if rows.len() == 0 {
        Err(GatewayError::RowNotFound)
    } else if rows.len() > 1 {
        Err(GatewayError::TooManyRows)
    } else {
        Ok(rows.remove(0))
    }
}

/// The outcome of an insert that the store answered with `res`.
pub fn create_outcome(res: Result<u64, GatewayError>) -> (r: Result<Status, CrudError>)
    ensures
        status_result_view(r) == match res {
            Ok(_) => Ok(StatusView::Success),
            Err(e) => Err::<StatusView, CrudError>(classify_spec(e)),
        },
{
    match res {
        Ok(_) => Ok(Status::ok()),
        Err(e) => Err(classify(e)),
    }
}

/// The status of a delete that removed `affected` rows: success where it
/// removed any, else a failure that reports the key as not found.
pub fn delete_outcome(affected: u64) -> (s: Status)
    ensures
        s@ == delete_status(affected as nat),
{
    if affected > 0 {
        Status::ok()
    } else {
        Status::not_found()
    }
}

impl CheckCode {
    /// Stores `r` where its code is not taken.
    pub fn create(r: CheckCode, table: &mut CheckCodeTable) -> (res: Result<Status, CrudError>)
        requires
            old(table).wf(),
        ensures
            final(table).wf(),
            (final(table)@, status_result_view(res)) == create_spec(old(table)@, r@),
    {
        if !r.is_valid() {
            return Err(CrudError::Validation);
        }
        let (code, owner) = r.into_parts();
        let inserted = table.insert(code, owner);
        create_outcome(inserted)
    }

    /// Every row of the table, in the table's order.
    pub fn read(table: &CheckCodeTable) -> (res: Result<Vec<CheckCode>, CrudError>)
        ensures
            res matches Ok(v) && v@.map_values(|c: CheckCode| c@) == table@,
    {
        Ok(table.select_all())
    }

    /// The row whose code is `key`.
    pub fn read_by_key(key: String, table: &CheckCodeTable) -> (res: Result<CheckCode, CrudError>)
        requires
            table.wf(),
        ensures
            record_result_view(res) == read_by_key_spec(table@, key@),
    {
        let rows = table.select_by_code(&key);
        let ghost found = rows@;
        assert(found.map_values(|c: CheckCode| c@) == rows_with_code(table@, key@));
        assert(found.len() == rows_with_code(table@, key@).len());
        match fetch_one(rows) {
            Ok(c) => {
                assert(c@ == found.map_values(|c: CheckCode| c@)[0]);
                Ok(c)
            },
            Err(e) => Err(classify(e)),
        }
    }

    /// Not supported for this entity: always fails with `Unsupported`.
    #[allow(unused_variables)]
    pub fn update(key: String, r: CheckCode, table: &mut CheckCodeTable) -> (res: Result<Status, CrudError>)
        ensures
            res matches Err(e) && e == CrudError::Unsupported,
            final(table)@ == old(table)@,
    {
        Err(CrudError::Unsupported)
    }

    /// Removes the row whose code is `key`; reports whether there was one.
    pub fn delete(key: String, table: &mut CheckCodeTable) -> (res: Result<Status, CrudError>)
        requires
            old(table).wf(),
        ensures
            final(table).wf(),
            (final(table)@, status_result_view(res)) == delete_spec(old(table)@, key@),
    {
        let affected = table.delete_by_code(&key);
        Ok(delete_outcome(affected))
    }
}

} // verus!
