use vstd::prelude::*;
use crate::crud::{create_spec, delete_spec, read_by_key_spec};
use crate::record::{RowView, valid_row};
use crate::status::{CrudError, StatusView, not_found_text};
use crate::table::{
    has_code,
    index_of_code,
    unique_codes,
    without_code,
    lemma_index_of_code_unique,
    lemma_push_keeps_unique,
    lemma_remove_contains,
    lemma_remove_keeps_unique,
};

verus! {

/// `create` keeps the codes of the table unique.
pub proof fn create_keeps_unique(rows: Seq<RowView>, r: RowView)
    requires
        unique_codes(rows),
    ensures
        unique_codes(create_spec(rows, r).0),
        valid_row(r) ==> has_code(create_spec(rows, r).0, r.0),
{
    if valid_row(r) && !has_code(rows, r.0) {
        lemma_push_keeps_unique(rows, r);
    }
}

/// `delete(k)` keeps the codes of the table unique and leaves no row with code `k`.
pub proof fn delete_keeps_unique(rows: Seq<RowView>, k: Seq<char>)
    requires
        unique_codes(rows),
    ensures
        unique_codes(delete_spec(rows, k).0),
        !has_code(delete_spec(rows, k).0, k),
{
    if has_code(rows, k) {
        let i = index_of_code(rows, k);
        lemma_remove_keeps_unique(rows, i);
    }
}

/// Reading a record back by its code after creating it gives the record.
/// Where the code was already taken, this holds only if the stored row is the
/// same record.
pub proof fn create_then_read_by_key(rows: Seq<RowView>, r: RowView)
    requires
        unique_codes(rows),
        valid_row(r),
        has_code(rows, r.0) ==> rows[index_of_code(rows, r.0)] == r,
    ensures
        read_by_key_spec(create_spec(rows, r).0, r.0) == Ok::<RowView, CrudError>(r),
{
    if !has_code(rows, r.0) {
        lemma_push_keeps_unique(rows, r);
        assert(rows.push(r)[rows.len() as int] == r);
    }
}

/// After creating a record and deleting its code, reading that code fails with
/// `NotFound`.
pub proof fn create_delete_then_read_by_key(rows: Seq<RowView>, r: RowView)
    requires
        unique_codes(rows),
    ensures
        read_by_key_spec(delete_spec(create_spec(rows, r).0, r.0).0, r.0)
            == Err::<RowView, CrudError>(CrudError::NotFound),
{
    create_keeps_unique(rows, r);
    delete_keeps_unique(create_spec(rows, r).0, r.0);
}

/// Deleting an absent code reports "not found" and leaves the table as it was.
pub proof fn delete_absent(rows: Seq<RowView>, k: Seq<char>)
    requires
        !has_code(rows, k),
    ensures
        delete_spec(rows, k) == (rows, Ok::<StatusView, CrudError>(StatusView::Failure(not_found_text()))),
{
}

/// Creating a second record with the code of a first one fails with `Conflict`.
pub proof fn create_twice_conflicts(rows: Seq<RowView>, r1: RowView, r2: RowView)
    requires
        unique_codes(rows),
        valid_row(r1),
        valid_row(r2),
        r1.0 == r2.0,
    ensures
        create_spec(create_spec(rows, r1).0, r2).1 == Err::<StatusView, CrudError>(CrudError::Conflict),
{
    create_keeps_unique(rows, r1);
}

/// One operation that changes the table.
pub enum Op {
    Create(RowView),
    Delete(Seq<char>),
}

/// The table after one operation.
pub open spec fn apply(rows: Seq<RowView>, op: Op) -> Seq<RowView> {
    match op {
        Op::Create(r) => create_spec(rows, r).0,
        Op::Delete(k) => delete_spec(rows, k).0,
    }
}

/// The table after a sequence of operations on an empty one.
pub open spec fn replay(ops: Seq<Op>) -> Seq<RowView>
    decreases ops.len(),
{
    if ops.len() == 0 {
        Seq::empty()
    } else {
        apply(replay(ops.drop_last()), ops.last())
    }
}

/// The operation at `i` created `row` with success.
pub open spec fn created_at(ops: Seq<Op>, i: int, row: RowView) -> bool {
    0 <= i < ops.len() && ops[i] == Op::Create(row) && create_spec(replay(ops.take(i)), row).1
        == Ok::<StatusView, CrudError>(StatusView::Success)
}

/// Some operation after `i` deleted the code `k`.
pub open spec fn deleted_after(ops: Seq<Op>, i: int, k: Seq<char>) -> bool {
    exists|j: int| i < j < ops.len() && #[trigger] ops[j] == Op::Delete(k)
}

/// `row` was created with success and its code has not been deleted since.
pub open spec fn live(ops: Seq<Op>, row: RowView) -> bool {
    exists|i: int| #[trigger] created_at(ops, i, row) && !deleted_after(ops, i, row.0)
}

/// After any sequence of creates and deletes, the table holds exactly the rows
/// that were created and not deleted since, and no two of them share a code:
/// what `read` returns.
pub proof fn replay_holds_live_rows(ops: Seq<Op>)
    ensures
        unique_codes(replay(ops)),
        forall|row: RowView| #[trigger] replay(ops).contains(row) <==> live(ops, row),
    decreases ops.len(),
{
    if ops.len() == 0 {
        return;
    }
    let n = ops.len() - 1;
    let prev = ops.drop_last();
    replay_holds_live_rows(prev);
    let before = replay(prev);
    let after = replay(ops);
    assert(ops.take(n) =~= prev);
    assert forall|i: int| 0 <= i < n implies #[trigger] ops.take(i) == prev.take(i) && ops[i] == prev[i] by {
        assert(ops.take(i) =~= prev.take(i));
    }
    assert forall|i: int, row: RowView| 0 <= i < n implies #[trigger] created_at(ops, i, row)
        == created_at(prev, i, row) by {
        assert(ops.take(i) == prev.take(i) && ops[i] == prev[i]);
    }
    match ops.last() {
        Op::Create(x) => {
            create_keeps_unique(before, x);
            assert forall|row: RowView| #[trigger] after.contains(row) <==> live(ops, row) by {
                assert forall|i: int| 0 <= i < n implies #[trigger] deleted_after(ops, i, row.0)
                    == deleted_after(prev, i, row.0) by {
                    if deleted_after(ops, i, row.0) {
                        let j = choose|j: int| i < j < ops.len() && #[trigger] ops[j] == Op::Delete(row.0);
                        assert(j < n);
                        assert(prev[j] == ops[j]);
                    }
                    if deleted_after(prev, i, row.0) {
                        let j = choose|j: int| i < j < prev.len() && #[trigger] prev[j] == Op::Delete(row.0);
                        assert(ops[j] == prev[j]);
                    }
                }
                let grew = valid_row(x) && !has_code(before, x.0);
                if grew {
                    assert(after == before.push(x));
                } else {
                    assert(after == before);
                }
                if after.contains(row) {
                    if before.contains(row) {
                        let i = choose|i: int| #[trigger] created_at(prev, i, row) && !deleted_after(prev, i, row.0);
                        assert(created_at(ops, i, row));
                    } else {
                        let j = choose|j: int| 0 <= j < after.len() && after[j] == row;
                        assert(grew);
                        if j < before.len() {
                            assert(before[j] == row);
                        }
                        assert(row == x);
                        assert(created_at(ops, n, row));
                        assert(!deleted_after(ops, n, row.0));
                    }
                }
                if live(ops, row) {
                    let i = choose|i: int| #[trigger] created_at(ops, i, row) && !deleted_after(ops, i, row.0);
                    if i == n {
                        assert(row == x);
                        assert(grew);
                        assert(after[before.len() as int] == row);
                    } else {
                        assert(created_at(prev, i, row));
                        assert(before.contains(row));
                        let j = choose|j: int| 0 <= j < before.len() && before[j] == row;
                        if grew {
                            assert(after[j] == row);
                        }
                    }
                }
            }
        },
        Op::Delete(k) => {
            delete_keeps_unique(before, k);
            assert(after == without_code(before, k));
            assert forall|row: RowView| #[trigger] after.contains(row) <==> live(ops, row) by {
                if has_code(before, k) {
                    let idx = index_of_code(before, k);
                    lemma_remove_contains(before, idx, row);
                }
                assert(after.contains(row) <==> (before.contains(row) && row.0 != k));
                assert(ops[n] == Op::Delete(k));
                if after.contains(row) {
                    let i = choose|i: int| #[trigger] created_at(prev, i, row) && !deleted_after(prev, i, row.0);
                    assert(created_at(ops, i, row));
                    if deleted_after(ops, i, row.0) {
                        let j = choose|j: int| i < j < ops.len() && #[trigger] ops[j] == Op::Delete(row.0);
                        if j < n {
                            assert(prev[j] == ops[j]);
                        }
                    }
                }
                if live(ops, row) {
                    let i = choose|i: int| #[trigger] created_at(ops, i, row) && !deleted_after(ops, i, row.0);
                    if i == n {
                        assert(ops[n] == Op::Create(row));
                    }
                    assert(created_at(prev, i, row));
                    if deleted_after(prev, i, row.0) {
                        let j = choose|j: int| i < j < prev.len() && #[trigger] prev[j] == Op::Delete(row.0);
                        assert(ops[j] == prev[j]);
                    }
                    if row.0 == k {
                        assert(ops[n] == Op::Delete(row.0));
                    }
                }
            }
        },
    }
}

} // verus!
