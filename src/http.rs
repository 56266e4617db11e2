use vstd::prelude::*;
use crate::crud::{create_spec, delete_spec, read_by_key_spec, record_result_view, status_result_view};
use crate::record::{CheckCode, RowView};
use crate::status::{CrudError, Status, StatusView};
use crate::table::CheckCodeTable;

verus! {

/// A request to the `/check-code` routes, by verb and path.
pub enum Request {
    /// `POST /check-code` with a record.
    Create(CheckCode),
    /// `GET /check-code`.
    ReadAll,
    /// `GET /check-code/{code}`.
    ReadByKey(String),
    /// `PUT /check-code/{code}` with a record.
    Update(String, CheckCode),
    /// `DELETE /check-code/{code}`.
    Delete(String),
}

/// What a reply carries as its JSON body.
pub enum Body {
    Status(Status),
    Record(CheckCode),
    Records(Vec<CheckCode>),
    /// A message that names the kind of failure and nothing of its cause.
    Error(String),
}

pub enum BodyView {
    Status(StatusView),
    Record(RowView),
    Records(Seq<RowView>),
    Error(Seq<char>),
}

impl View for Body {
    type V = BodyView;

    open spec fn view(&self) -> BodyView {
        match self {
            Body::Status(s) => BodyView::Status(s@),
            Body::Record(c) => BodyView::Record(c@),
            Body::Records(v) => BodyView::Records(v@.map_values(|c: CheckCode| c@)),
            Body::Error(m) => BodyView::Error(m@),
        }
    }
}

/// An HTTP status code and a body.
pub struct Reply {
    pub code: u16,
    pub body: Body,
}

impl View for Reply {
    type V = (u16, BodyView);

    open spec fn view(&self) -> (u16, BodyView) {
        (self.code, self.body@)
    }
}

/// The HTTP status code of each kind of failure.
pub open spec fn http_code_spec(e: CrudError) -> u16 {
    match e {
        CrudError::Validation => 400,
        CrudError::NotFound => 404,
        CrudError::Conflict => 409,
        CrudError::Unsupported => 501,
        CrudError::Backend => 500,
    }
}

/// The message shown to a client for each kind of failure.
pub open spec fn error_text(e: CrudError) -> Seq<char> {
    match e {
        CrudError::Validation => "invalid request"@,
        CrudError::NotFound => "not found"@,
        CrudError::Conflict => "conflict"@,
        CrudError::Unsupported => "unsupported operation"@,
        CrudError::Backend => "internal error"@,
    }
}

/// The reply to an operation that reports a status.
pub open spec fn status_reply(r: Result<StatusView, CrudError>) -> (u16, BodyView) {
    match r {
        Ok(s) => (200, BodyView::Status(s)),
        Err(e) => (http_code_spec(e), BodyView::Error(error_text(e))),
    }
}

/// The reply to an operation that reports one record.
pub open spec fn record_reply(r: Result<RowView, CrudError>) -> (u16, BodyView) {
    match r {
        Ok(c) => (200, BodyView::Record(c)),
        Err(e) => (http_code_spec(e), BodyView::Error(error_text(e))),
    }
}

pub fn http_code(e: CrudError) -> (r: u16)
    ensures
        r == http_code_spec(e),
{
    match e {
        CrudError::Validation => 400,
        CrudError::NotFound => 404,
        CrudError::Conflict => 409,
        CrudError::Unsupported => 501,
        CrudError::Backend => 500,
    }
}

pub fn error_message(e: CrudError) -> (r: String)
    ensures
        r@ == error_text(e),
{
    match e {
        CrudError::Validation => String::from_str("invalid request"),
        CrudError::NotFound => String::from_str("not found"),
        CrudError::Conflict => String::from_str("conflict"),
        CrudError::Unsupported => String::from_str("unsupported operation"),
        CrudError::Backend => String::from_str("internal error"),
    }
}

fn error_reply(e: CrudError) -> (r: Reply)
    ensures
        r@ == (http_code_spec(e), BodyView::Error(error_text(e))),
{
    Reply { code: http_code(e), body: Body::Error(error_message(e)) }
}

pub fn reply_status(res: Result<Status, CrudError>) -> (r: Reply)
    ensures
        r@ == status_reply(status_result_view(res)),
{
    match res {
        Ok(s) => Reply { code: 200, body: Body::Status(s) },
        Err(e) => error_reply(e),
    }
}

pub fn reply_record(res: Result<CheckCode, CrudError>) -> (r: Reply)
    ensures
        r@ == record_reply(record_result_view(res)),
{
    match res {
        Ok(c) => Reply { code: 200, body: Body::Record(c) },
        Err(e) => error_reply(e),
    }
}

pub fn reply_records(res: Result<Vec<CheckCode>, CrudError>) -> (r: Reply)
    ensures
        match res {
            Ok(v) => r@ == (200u16, BodyView::Records(v@.map_values(|c: CheckCode| c@))),
            Err(e) => r@ == (http_code_spec(e), BodyView::Error(error_text(e))),
        },
{
    match res {
        Ok(v) => Reply { code: 200, body: Body::Records(v) },
        Err(e) => error_reply(e),
    }
}

/// Runs the CRUD operation that a request names on `table` and builds the reply.
pub fn handle(req: Request, table: &mut CheckCodeTable) -> (r: Reply)
    requires
        old(table).wf(),
    ensures
        final(table).wf(),
        match req {
            Request::Create(c) => final(table)@ == create_spec(old(table)@, c@).0
                && r@ == status_reply(create_spec(old(table)@, c@).1),
            Request::ReadAll => final(table)@ == old(table)@
                && r@ == (200u16, BodyView::Records(old(table)@)),
            Request::ReadByKey(k) => final(table)@ == old(table)@
                && r@ == record_reply(read_by_key_spec(old(table)@, k@)),
            Request::Update(_, _) => final(table)@ == old(table)@
                && r@ == status_reply(Err(CrudError::Unsupported)),
            Request::Delete(k) => final(table)@ == delete_spec(old(table)@, k@).0
                && r@ == status_reply(delete_spec(old(table)@, k@).1),
        },
{
    match req {
        Request::Create(c) => reply_status(CheckCode::create(c, table)),
        Request::ReadAll => reply_records(CheckCode::read(table)),
        Request::ReadByKey(k) => reply_record(CheckCode::read_by_key(k, table)),
        Request::Update(k, c) => reply_status(CheckCode::update(k, c, table)),
        Request::Delete(k) => reply_status(CheckCode::delete(k, table)),
    }
}

} // verus!
