use vstd::prelude::*;
use crate::record::{CheckCode, RowView};

verus! {

/// Failures that the store reports on a statement.
#[derive(Clone, Copy, Debug, PartialEq, Eq, Structural)]
pub enum GatewayError {
    /// An insert would give two rows the same primary key.
    UniqueViolation,
    /// A query that wants exactly one row found none.
    RowNotFound,
    /// A query that wants exactly one row found more than one.
    TooManyRows,
    /// The driver or the connection failed.
    Driver,
}

/// Whether some row of `rows` has the code `k`.
pub open spec fn has_code(rows: Seq<RowView>, k: Seq<char>) -> bool {
    exists|i: int| 0 <= i < rows.len() && #[trigger] rows[i].0 == k
}

/// No two rows share a code: the primary key of the table.
pub open spec fn unique_codes(rows: Seq<RowView>) -> bool {
    forall|i: int, j: int| 0 <= i < j < rows.len() ==> #[trigger] rows[i].0 != #[trigger] rows[j].0
}

/// The position of the row with code `k`, where there is one.
pub open spec fn index_of_code(rows: Seq<RowView>, k: Seq<char>) -> int {
    choose|i: int| 0 <= i < rows.len() && #[trigger] rows[i].0 == k
}

/// The rows whose code is `k`: one or none in a table with unique codes.
pub open spec fn rows_with_code(rows: Seq<RowView>, k: Seq<char>) -> Seq<RowView> {
    if has_code(rows, k) {
        seq![rows[index_of_code(rows, k)]]
    } else {
        Seq::empty()
    }
}

/// The table after `DELETE ... WHERE code = k`.
pub open spec fn without_code(rows: Seq<RowView>, k: Seq<char>) -> Seq<RowView> {
    if has_code(rows, k) {
        rows.remove(index_of_code(rows, k))
    } else {
        rows
    }
}

/// In a table with unique codes, a row found by its code is the row at `index_of_code`.
pub proof fn lemma_index_of_code_unique(rows: Seq<RowView>, k: Seq<char>, i: int)
    requires
        unique_codes(rows),
        0 <= i < rows.len(),
        rows[i].0 == k,
    ensures
        has_code(rows, k),
        index_of_code(rows, k) == i,
{
    let j = index_of_code(rows, k);
    if j < i {
        assert(rows[j].0 != rows[i].0);
    } else if i < j {
        assert(rows[i].0 != rows[j].0);
    }
}

/// Removing a row keeps the codes unique, and removes only that row's code.
pub proof fn lemma_remove_keeps_unique(rows: Seq<RowView>, i: int)
    requires
        unique_codes(rows),
        0 <= i < rows.len(),
    ensures
        unique_codes(rows.remove(i)),
        !has_code(rows.remove(i), rows[i].0),
        forall|k: Seq<char>| k != rows[i].0 ==> has_code(rows.remove(i), k) == has_code(rows, k),
{
    let r = rows.remove(i);
    assert forall|a: int, b: int| 0 <= a < b < r.len() implies #[trigger] r[a].0 != #[trigger] r[b].0 by {
        let a0 = if a < i { a } else { a + 1 };
        let b0 = if b < i { b } else { b + 1 };
        assert(r[a] == rows[a0]);
        assert(r[b] == rows[b0]);
    }
    assert forall|k: Seq<char>| k != rows[i].0 implies has_code(r, k) == has_code(rows, k) by {
        if has_code(rows, k) {
            let j = choose|j: int| 0 <= j < rows.len() && #[trigger] rows[j].0 == k;
            let j1 = if j < i { j } else { j - 1 };
            assert(r[j1].0 == k);
        }
        if has_code(r, k) {
            let j = choose|j: int| 0 <= j < r.len() && #[trigger] r[j].0 == k;
            let j0 = if j < i { j } else { j + 1 };
            assert(rows[j0].0 == k);
        }
    }
    if has_code(r, rows[i].0) {
        let j = choose|j: int| 0 <= j < r.len() && #[trigger] r[j].0 == rows[i].0;
        let j0 = if j < i { j } else { j + 1 };
        assert(rows[j0].0 == rows[i].0);
    }
}

/// Appending a row whose code is absent keeps the codes unique, and the row is then
/// the one found by its code.
pub proof fn lemma_push_keeps_unique(rows: Seq<RowView>, r: RowView)
    requires
        unique_codes(rows),
        !has_code(rows, r.0),
    ensures
        unique_codes(rows.push(r)),
        has_code(rows.push(r), r.0),
        index_of_code(rows.push(r), r.0) == rows.len(),
{
    let p = rows.push(r);
    assert forall|i: int, j: int| 0 <= i < j < p.len() implies #[trigger] p[i].0 != #[trigger] p[j].0 by {
        if j == rows.len() {
            assert(rows[i].0 == p[i].0);
        } else {
            assert(rows[i] == p[i] && rows[j] == p[j]);
        }
    }
    assert(p[rows.len() as int] == r);
    lemma_index_of_code_unique(p, r.0, rows.len() as int);
}

/// In a table with unique codes, removing the row at `i` removes exactly the rows
/// whose code is that row's code.
pub proof fn lemma_remove_contains(rows: Seq<RowView>, i: int, x: RowView)
    requires
        unique_codes(rows),
        0 <= i < rows.len(),
    ensures
        rows.remove(i).contains(x) <==> (rows.contains(x) && x.0 != rows[i].0),
{
    let r = rows.remove(i);
    lemma_remove_keeps_unique(rows, i);
    if r.contains(x) {
        let j = choose|j: int| 0 <= j < r.len() && r[j] == x;
        let j0 = if j < i { j } else { j + 1 };
        assert(rows[j0] == x);
        assert(r[j].0 == x.0);
    }
    if rows.contains(x) && x.0 != rows[i].0 {
        let j = choose|j: int| 0 <= j < rows.len() && rows[j] == x;
        assert(j != i);
        let j1 = if j < i { j } else { j - 1 };
        assert(r[j1] == x);
    }
}

/// An in-memory store for the `check_code` table: rows in the order of their
/// insertion, at most one per code.
pub struct CheckCodeTable {
    rows: Vec<CheckCode>,
}

impl View for CheckCodeTable {
    type V = Seq<RowView>;

    closed spec fn view(&self) -> Seq<RowView> {
        self.rows@.map_values(|c: CheckCode| c@)
    }
}

impl CheckCodeTable {
    /// The table's invariant: its codes are unique.
    pub open spec fn wf(&self) -> bool {
        unique_codes(self@)
    }

    pub fn new() -> (t: CheckCodeTable)
        ensures
            t.wf(),
            t@ == Seq::<RowView>::empty(),
    {
        let t = CheckCodeTable { rows: Vec::new() };
        assert(t@ =~= Seq::<RowView>::empty());
        t
    }

    pub fn len(&self) -> (n: usize)
        ensures
            n == self@.len(),
    {
        self.rows.len()
    }

    /// The position of the row whose code is `key`.
    fn position(&self, key: &String) -> (r: Option<usize>)
        ensures
            match r {
                Some(i) => i < self@.len() && self@[i as int].0 == key@,
                None => !has_code(self@, key@),
            },
    {
        let mut i: usize = 0;
        while i < self.rows.len()
            invariant
                i <= self.rows.len(),
                self@.len() == self.rows.len(),
                forall|j: int| 0 <= j < i ==> #[trigger] self@[j].0 != key@,
            decreases self.rows.len() - i,
        {
            assert(self@[i as int] == self.rows[i as int]@);
            if self.rows[i].code().eq(key) {
                return Some(i);
            }
            i = i + 1;
        }
        None
    }

    /// `INSERT INTO check_code (code, owner) VALUES (..)`: the number of rows
    /// added, or a unique violation where the code is present.
    pub fn insert(&mut self, code: String, owner: String) -> (r: Result<u64, GatewayError>)
        requires
            old(self).wf(),
        ensures
            final(self).wf(),
            has_code(old(self)@, code@) ==> r == Err::<u64, GatewayError>(GatewayError::UniqueViolation)
                && final(self)@ == old(self)@,
            !has_code(old(self)@, code@) ==> r == Ok::<u64, GatewayError>(1)
                && final(self)@ == old(self)@.push((code@, owner@)),
    {
        match self.position(&code) {
            Some(_) => Err(GatewayError::UniqueViolation),
            None => {
                let row = CheckCode::new(code, owner);
                let ghost before = self@;
                self.rows.push(row);
                assert(self@ =~= before.push(row@));
                assert forall|i: int, j: int| 0 <= i < j < self@.len() implies
                    #[trigger] self@[i].0 != #[trigger] self@[j].0 by {
                    if j == before.len() {
                        assert(before[i].0 == self@[i].0);
                    }
                }
                Ok(1)
            }
        }
    }

    /// `SELECT code, owner FROM check_code`: every row, in the table's order.
    pub fn select_all(&self) -> (r: Vec<CheckCode>)
        ensures
            r@.map_values(|c: CheckCode| c@) == self@,
    {
        let mut out: Vec<CheckCode> = Vec::new();
        let mut i: usize = 0;
        while i < self.rows.len()
            invariant
                i <= self.rows.len(),
                self@.len() == self.rows.len(),
                out@.map_values(|c: CheckCode| c@) == self@.subrange(0, i as int),
            decreases self.rows.len() - i,
        {
            let row = self.rows[i].copied();
            assert(self@[i as int] == row@);
            let ghost prev = out@;
            out.push(row);
            assert(out@ == prev.push(row));
            assert(out@.map_values(|c: CheckCode| c@) =~= prev.map_values(|c: CheckCode| c@).push(
                row@,
            ));
            assert(out@.map_values(|c: CheckCode| c@) =~= self@.subrange(0, i + 1));
            i = i + 1;
        }
        assert(self@.subrange(0, self@.len() as int) =~= self@);
        out
    }

    /// `SELECT code, owner FROM check_code WHERE code = key`.
    pub fn select_by_code(&self, key: &String) -> (r: Vec<CheckCode>)
        requires
            self.wf(),
        ensures
            r@.map_values(|c: CheckCode| c@) == rows_with_code(self@, key@),
    {
        let mut out: Vec<CheckCode> = Vec::new();
        match self.position(key) {
            Some(i) => {
                proof {
                    lemma_index_of_code_unique(self@, key@, i as int);
                }
                assert(self@[i as int] == self.rows[i as int]@);
                out.push(self.rows[i].copied());
                assert(out@.map_values(|c: CheckCode| c@) =~= rows_with_code(self@, key@));
            },
            None => {
                assert(out@.map_values(|c: CheckCode| c@) =~= rows_with_code(self@, key@));
            },
        }
        out
    }

    /// `DELETE FROM check_code WHERE code = key`: the number of rows removed.
    pub fn delete_by_code(&mut self, key: &String) -> (n: u64)
        requires
            old(self).wf(),
        ensures
            final(self).wf(),
            final(self)@ == without_code(old(self)@, key@),
            n == (if has_code(old(self)@, key@) { 1u64 } else { 0u64 }),
    {
        match self.position(key) {
            Some(i) => {
                let ghost before = self@;
                proof {
                    lemma_index_of_code_unique(before, key@, i as int);
                    lemma_remove_keeps_unique(before, i as int);
                }
                self.rows.remove(i);
                assert(self@ =~= before.remove(i as int));
                1
            },
            None => 0,
        }
    }
}

} // verus!
