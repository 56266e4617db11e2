use check_code::crud::{classify, create_outcome, delete_outcome, fetch_one};
use check_code::http::{handle, http_code, error_message, Body, Reply, Request};
use check_code::record::CheckCode;
use check_code::status::{CrudError, Status};
use check_code::table::{CheckCodeTable, GatewayError};

fn rec(code: &str, owner: &str) -> CheckCode {
    CheckCode::new(code.to_string(), owner.to_string())
}

fn is_ok_status(s: &Status) -> bool {
    matches!(s, Status::Success)
}

fn is_not_found_status(s: &Status) -> bool {
    match s {
        Status::Failure(m) => m == "not found",
        Status::Success => false,
    }
}

fn status_body(r: &Reply) -> &Status {
    match &r.body {
        Body::Status(s) => s,
        _ => panic!("expected a status body"),
    }
}

#[test]
fn create_then_read_by_key_gives_record() {
    let mut t = CheckCodeTable::new();
    let s = CheckCode::create(rec("A1", "alice"), &mut t).unwrap();
    assert!(is_ok_status(&s));
    let r = CheckCode::read_by_key("A1".to_string(), &t).unwrap();
    assert_eq!(r.code(), "A1");
    assert_eq!(r.owner(), "alice");
}

#[test]
fn create_delete_then_read_by_key_not_found() {
    let mut t = CheckCodeTable::new();
    CheckCode::create(rec("A1", "alice"), &mut t).unwrap();
    let s = CheckCode::delete("A1".to_string(), &mut t).unwrap();
    assert!(is_ok_status(&s));
    let e = CheckCode::read_by_key("A1".to_string(), &t).err().unwrap();
    assert_eq!(e, CrudError::NotFound);
}

#[test]
fn delete_absent_reports_not_found_and_keeps_table() {
    let mut t = CheckCodeTable::new();
    CheckCode::create(rec("B2", "bob"), &mut t).unwrap();
    let s = CheckCode::delete("ZZ".to_string(), &mut t).unwrap();
    assert!(is_not_found_status(&s));
    assert_eq!(t.len(), 1);
    let r = CheckCode::read_by_key("B2".to_string(), &t).unwrap();
    assert_eq!(r.owner(), "bob");
}

#[test]
fn create_twice_conflicts() {
    let mut t = CheckCodeTable::new();
    CheckCode::create(rec("A1", "alice"), &mut t).unwrap();
    let e = CheckCode::create(rec("A1", "alice"), &mut t).err().unwrap();
    assert_eq!(e, CrudError::Conflict);
    assert_eq!(t.len(), 1);
}

#[test]
fn read_returns_live_rows_in_order_without_duplicates() {
    let mut t = CheckCodeTable::new();
    CheckCode::create(rec("A1", "alice"), &mut t).unwrap();
    CheckCode::create(rec("B2", "bob"), &mut t).unwrap();
    CheckCode::create(rec("C3", "carol"), &mut t).unwrap();
    let _ = CheckCode::create(rec("B2", "bob"), &mut t);
    CheckCode::delete("A1".to_string(), &mut t).unwrap();
    let rows = CheckCode::read(&t).unwrap();
    let codes: Vec<&str> = rows.iter().map(|r| r.code().as_str()).collect();
    assert_eq!(codes, vec!["B2", "C3"]);
}

#[test]
fn read_of_empty_table_is_empty() {
    let t = CheckCodeTable::new();
    assert_eq!(CheckCode::read(&t).unwrap().len(), 0);
}

#[test]
fn update_is_unsupported() {
    let mut t = CheckCodeTable::new();
    CheckCode::create(rec("A1", "alice"), &mut t).unwrap();
    let e = CheckCode::update("A1".to_string(), rec("A1", "bob"), &mut t).err().unwrap();
    assert_eq!(e, CrudError::Unsupported);
    let r = CheckCode::read_by_key("A1".to_string(), &t).unwrap();
    assert_eq!(r.owner(), "alice");
}

#[test]
fn create_with_empty_fields_is_rejected() {
    let mut t = CheckCodeTable::new();
    let e = CheckCode::create(rec("", "alice"), &mut t).err().unwrap();
    assert_eq!(e, CrudError::Validation);
    let e = CheckCode::create(rec("A1", ""), &mut t).err().unwrap();
    assert_eq!(e, CrudError::Validation);
    assert_eq!(t.len(), 0);
}

#[test]
fn post_then_get_check_code() {
    let mut t = CheckCodeTable::new();
    let r = handle(Request::Create(rec("A1", "alice")), &mut t);
    assert_eq!(r.code, 200);
    assert!(is_ok_status(status_body(&r)));
    let r = handle(Request::ReadByKey("A1".to_string()), &mut t);
    assert_eq!(r.code, 200);
    match &r.body {
        Body::Record(c) => {
            assert_eq!(c.code(), "A1");
            assert_eq!(c.owner(), "alice");
        }
        _ => panic!("expected a record"),
    }
}

#[test]
fn post_same_code_again_is_409() {
    let mut t = CheckCodeTable::new();
    handle(Request::Create(rec("A1", "alice")), &mut t);
    let r = handle(Request::Create(rec("A1", "bob")), &mut t);
    assert_eq!(r.code, 409);
}

#[test]
fn get_missing_code_is_404() {
    let mut t = CheckCodeTable::new();
    let r = handle(Request::ReadByKey("ZZ".to_string()), &mut t);
    assert_eq!(r.code, 404);
    match &r.body {
        Body::Error(m) => assert_eq!(m, "not found"),
        _ => panic!("expected an error body"),
    }
}

#[test]
fn delete_twice_reports_not_found() {
    let mut t = CheckCodeTable::new();
    handle(Request::Create(rec("A1", "alice")), &mut t);
    let r = handle(Request::Delete("A1".to_string()), &mut t);
    assert_eq!(r.code, 200);
    assert!(is_ok_status(status_body(&r)));
    let r = handle(Request::Delete("A1".to_string()), &mut t);
    assert_eq!(r.code, 200);
    assert!(is_not_found_status(status_body(&r)));
}

#[test]
fn get_all_after_two_inserts() {
    let mut t = CheckCodeTable::new();
    handle(Request::Create(rec("A1", "alice")), &mut t);
    handle(Request::Create(rec("B2", "bob")), &mut t);
    let r = handle(Request::ReadAll, &mut t);
    assert_eq!(r.code, 200);
    match &r.body {
        Body::Records(v) => {
            assert_eq!(v.len(), 2);
            assert!(v.iter().any(|c| c.code() == "A1" && c.owner() == "alice"));
            assert!(v.iter().any(|c| c.code() == "B2" && c.owner() == "bob"));
        }
        _ => panic!("expected records"),
    }
}

#[test]
fn put_is_501() {
    let mut t = CheckCodeTable::new();
    handle(Request::Create(rec("A1", "alice")), &mut t);
    let r = handle(Request::Update("A1".to_string(), rec("A1", "bob")), &mut t);
    assert_eq!(r.code, 501);
}

#[test]
fn post_empty_owner_is_400() {
    let mut t = CheckCodeTable::new();
    let r = handle(Request::Create(rec("A1", "")), &mut t);
    assert_eq!(r.code, 400);
}

#[test]
fn http_codes_of_each_kind() {
    assert_eq!(http_code(CrudError::Validation), 400);
    assert_eq!(http_code(CrudError::NotFound), 404);
    assert_eq!(http_code(CrudError::Conflict), 409);
    assert_eq!(http_code(CrudError::Unsupported), 501);
    assert_eq!(http_code(CrudError::Backend), 500);
    assert_eq!(error_message(CrudError::Backend), "internal error");
    assert_eq!(error_message(CrudError::Unsupported), "unsupported operation");
}

#[test]
fn store_failures_are_classified() {
    assert_eq!(classify(GatewayError::UniqueViolation), CrudError::Conflict);
    assert_eq!(classify(GatewayError::RowNotFound), CrudError::NotFound);
    assert_eq!(classify(GatewayError::TooManyRows), CrudError::Backend);
    assert_eq!(classify(GatewayError::Driver), CrudError::Backend);
    assert_eq!(create_outcome(Err(GatewayError::Driver)).err().unwrap(), CrudError::Backend);
    assert!(is_ok_status(&create_outcome(Ok(1)).unwrap()));
}

#[test]
fn fetch_one_wants_exactly_one_row() {
    assert_eq!(fetch_one(vec![]).err().unwrap(), GatewayError::RowNotFound);
    assert_eq!(
        fetch_one(vec![rec("A1", "a"), rec("B2", "b")]).err().unwrap(),
        GatewayError::TooManyRows
    );
    assert_eq!(fetch_one(vec![rec("A1", "a")]).unwrap().owner(), "a");
}

#[test]
fn delete_outcome_by_rows_affected() {
    assert!(is_ok_status(&delete_outcome(1)));
    assert!(is_ok_status(&delete_outcome(3)));
    assert!(is_not_found_status(&delete_outcome(0)));
}
