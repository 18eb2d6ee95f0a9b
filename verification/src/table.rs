//! A model of the `inventory` table and of the statement semantics the
//! workflow relies on: serial primary keys assigned by the server, a point
//! lookup, a full scan, an update keyed by (not necessarily unique) name,
//! and a delete keyed by id. The single-row queries follow the client's
//! one-row expectation: a result set of zero or of several rows is an error.
use vstd::prelude::*;

verus! {

/// One inventory row as the scan returns it.
pub struct Row {
    pub id: i32,
    pub name: String,
    pub quantity: i32,
}

/// The `(id, name, quantity)` triple a row denotes.
pub open spec fn triple(r: Row) -> (int, Seq<char>, int) {
    (r.id as int, r.name@, r.quantity as int)
}

/// The triples of a sequence of rows, in order.
pub open spec fn triples(rows: Seq<Row>) -> Seq<(int, Seq<char>, int)> {
    rows.map_values(|r: Row| triple(r))
}

/// Why a single-row query failed: no row matched, or several did where
/// exactly one was expected.
#[derive(Clone, Copy, PartialEq, Eq, Structural, Debug)]
pub enum QueryError {
    NoRows,
    ManyRows,
}

/// Whether some row of `rows` carries primary key `id`.
pub open spec fn has_row_with_id(rows: Seq<Row>, id: int) -> bool {
    exists|i: int| 0 <= i < rows.len() && rows[i].id == id
}

/// How many rows of `rows` are named `name`.
pub open spec fn count_name(rows: Seq<Row>, name: Seq<char>) -> int
    decreases rows.len(),
{
    if rows.len() == 0 {
        0
    } else {
        (if rows[0].name@ == name {
            1int
        } else {
            0int
        }) + count_name(rows.skip(1), name)
    }
}

/// The row as an update keyed by `name` leaves it: the quantity is replaced
/// where the name matches, and nothing else changes.
pub open spec fn updated_row(r: Row, name: Seq<char>, quantity: i32) -> Row {
    if r.name@ == name {
        Row { id: r.id, name: r.name, quantity }
    } else {
        r
    }
}

/// The `inventory` table: its rows in storage order, and the next value of
/// the serial id sequence.
pub struct Table {
    pub rows: Vec<Row>,
    pub next_id: i32,
}

impl Table {
    /// Ids are server-assigned in increasing order and never reused: the
    /// stored ids increase strictly with position and all lie below the next
    /// value of the sequence.
    pub open spec fn wf(self) -> bool {
        &&& 1 <= self.next_id
        &&& forall|i: int, j: int|
            0 <= i < j < self.rows@.len() ==> #[trigger] self.rows@[i].id < #[trigger] self.rows@[j].id
        &&& forall|i: int|
            0 <= i < self.rows@.len() ==> 1 <= (#[trigger] self.rows@[i]).id < self.next_id
    }

    /// A freshly created table: no rows, and the id sequence starts at one.
    pub fn new() -> (t: Table)
        ensures
            t.wf(),
            t.rows@.len() == 0,
            t.next_id == 1,
    {
        Table { rows: Vec::new(), next_id: 1 }
    }

    /// Inserts a row and returns the server-generated id: the row is
    /// appended with the next id of the sequence, and the sequence advances.
    pub fn insert(&mut self, name: String, quantity: i32) -> (id: i32)
        requires
            old(self).wf(),
            old(self).next_id < i32::MAX,
        ensures
            final(self).wf(),
            id == old(self).next_id,
            final(self).next_id == old(self).next_id + 1,
            final(self).rows@ == old(self).rows@.push((Row { id, name, quantity })),
    {
        let id = self.next_id;
        self.rows.push(Row { id, name, quantity });
        self.next_id = self.next_id + 1;
        id
    }

    /// Point lookup by primary key: returns the name and quantity of the row
    /// with the given id, or nothing exactly when no row carries it.
    pub fn select_by_id(&self, id: i32) -> (r: Option<(String, i32)>)
        requires
            self.wf(),
        ensures
            r is Some <==> has_row_with_id(self.rows@, id as int),
            r matches Some((name, quantity)) ==> exists|i: int|
                0 <= i < self.rows@.len() && (#[trigger] self.rows@[i]).id == id as int
                    && self.rows@[i].name@ == name@ && self.rows@[i].quantity == quantity,
    {
        let n = self.rows.len();
        let mut i: usize = 0;
        while i < n
            invariant
                n == self.rows@.len(),
                0 <= i <= n,
                forall|j: int| 0 <= j < i ==> (#[trigger] self.rows@[j]).id != id as int,
            decreases n - i,
        {
            let row = &self.rows[i];
            if row.id == id {
                return Some((clone_string(&row.name), row.quantity));
            }
            i = i + 1;
        }
        None
    }

    /// Full scan: returns every row, in storage order, value for value.
    pub fn select_all(&self) -> (r: Vec<Row>)
        requires
            self.wf(),
        ensures
            r@ == self.rows@,
            triples(r@).to_multiset() == triples(self.rows@).to_multiset(),
    {
        let n = self.rows.len();
        let mut out: Vec<Row> = Vec::new();
        let mut i: usize = 0;
        while i < n
            invariant
                n == self.rows@.len(),
                0 <= i <= n,
                out@ == self.rows@.take(i as int),
            decreases n - i,
        {
            let row = &self.rows[i];
            out.push(clone_row(row));
            proof {
                assert(out@ =~= self.rows@.take(i + 1 as int));
            }
            i = i + 1;
        }
        proof {
            assert(out@ =~= self.rows@);
        }
        out
    }

    /// Update keyed by name, with the client's one-row expectation: every
    /// row named `name` has its quantity replaced (the statement runs in
    /// full), and the returned quantity is owed exactly when one row
    /// matched; zero matches and several matches are the two errors.
    pub fn update_by_name(&mut self, name: &String, quantity: i32) -> (r: Result<i32, QueryError>)
        requires
            old(self).wf(),
        ensures
            final(self).wf(),
            final(self).rows@ == old(self).rows@.map_values(
                |row: Row| updated_row(row, name@, quantity),
            ),
            final(self).rows@.len() == old(self).rows@.len(),
            final(self).next_id == old(self).next_id,
            r == Ok::<i32, QueryError>(quantity) <==> count_name(old(self).rows@, name@) == 1,
            r == Err::<i32, QueryError>(QueryError::NoRows) <==> count_name(
                old(self).rows@,
                name@,
            ) == 0,
            r == Err::<i32, QueryError>(QueryError::ManyRows) <==> count_name(
                old(self).rows@,
                name@,
            ) >= 2,
    {
        let ghost orig = self.rows@;
        let ghost target = name@;
        proof {
            lemma_count_name_nonnegative(orig, target);
            assert(orig.skip(0) =~= orig);
        }
        let n = self.rows.len();
        let mut matched: usize = 0;
        let mut i: usize = 0;
        while i < n
            invariant
                old(self).wf(),
                orig == old(self).rows@,
                target == name@,
                n == self.rows@.len(),
                n == orig.len(),
                self.next_id == old(self).next_id,
                0 <= i <= n,
                matched <= i,
                forall|j: int| 0 <= j < n ==> (#[trigger] self.rows@[j]).id == orig[j].id,
                forall|j: int| 0 <= j < i ==> self.rows@[j] == updated_row(orig[j], target, quantity),
                forall|j: int| i <= j < n ==> self.rows@[j] == orig[j],
                matched + count_name(orig.skip(i as int), target) == count_name(orig, target),
                count_name(orig.skip(i as int), target) >= 0,
            decreases n - i,
        {
            proof {
                lemma_count_name_step(orig, target, i as int);
                lemma_count_name_nonnegative(orig.skip(i + 1 as int), target);
            }
            let hit = string_eq(&self.rows[i].name, name);
            if hit {
                let ghost pre = self.rows@;
                let old_row = self.rows.remove(i);
                self.rows.insert(i, Row { id: old_row.id, name: old_row.name, quantity });
                proof {
                    assert(self.rows@ =~= pre.update(
                        i as int,
                        (Row { id: pre[i as int].id, name: pre[i as int].name, quantity }),
                    ));
                }
                matched = matched + 1;
            }
            i = i + 1;
        }
        proof {
            assert(orig.skip(n as int) =~= Seq::<Row>::empty());
            assert(self.rows@ =~= orig.map_values(|row: Row| updated_row(row, target, quantity)));
            lemma_wf_same_ids(*old(self), *self);
        }
        if matched == 1 {
            Ok(quantity)
        } else if matched == 0 {
            Err(QueryError::NoRows)
        } else {
            Err(QueryError::ManyRows)
        }
    }

    /// Delete by primary key, returning the deleted row: exactly the one
    /// row carrying the id is removed and handed back, and the call fails
    /// exactly when no row carries it. Ids are unique, so a repeated delete
    /// of the same id fails.
    pub fn delete_by_id(&mut self, id: i32) -> (r: Result<Row, QueryError>)
        requires
            old(self).wf(),
        ensures
            final(self).wf(),
            final(self).next_id == old(self).next_id,
            r is Ok <==> has_row_with_id(old(self).rows@, id as int),
            r matches Ok(row) ==> exists|i: int|
                0 <= i < old(self).rows@.len() && (#[trigger] old(self).rows@[i]).id == id as int
                    && row == old(self).rows@[i] && final(self).rows@ == old(self).rows@.remove(i),
            r is Ok ==> final(self).rows@.len() + 1 == old(self).rows@.len(),
            r is Ok ==> !has_row_with_id(final(self).rows@, id as int),
            r is Err ==> r == Err::<Row, QueryError>(QueryError::NoRows) && *final(self) == *old(self),
    {
        let n = self.rows.len();
        let mut i: usize = 0;
        while i < n
            invariant
                old(self).wf(),
                self == old(self),
                n == self.rows@.len(),
                0 <= i <= n,
                forall|j: int| 0 <= j < i ==> (#[trigger] self.rows@[j]).id != id as int,
            decreases n - i,
        {
            if self.rows[i].id == id {
                let ghost found = i as int;
                let ghost t0 = *self;
                let ghost pre = self.rows@;
                let row = self.rows.remove(i);
                proof {
                    lemma_wf_remove(t0, *self, found);
                    assert forall|k: int|
                        0 <= k < self.rows@.len() implies (#[trigger] self.rows@[k]).id
                        != id as int by {
                        if k < found {
                            assert(self.rows@[k] == pre[k]);
                            assert(pre[k].id < pre[found].id);
                        } else {
                            assert(self.rows@[k] == pre[k + 1]);
                            assert(pre[found].id < pre[k + 1].id);
                        }
                    }
                }
                return Ok(row);
            }
            i = i + 1;
        }
        Err(QueryError::NoRows)
    }
}

/// The count of any name is never negative.
pub proof fn lemma_count_name_nonnegative(rows: Seq<Row>, name: Seq<char>)
    ensures
        count_name(rows, name) >= 0,
    decreases rows.len(),
{
    if rows.len() > 0 {
        lemma_count_name_nonnegative(rows.skip(1), name);
    }
}

/// Peels position `i` off the tail count: the rows named `name` from
/// position `i` on are the row at `i` (if it matches) plus those after it.
pub proof fn lemma_count_name_step(rows: Seq<Row>, name: Seq<char>, i: int)
    requires
        0 <= i < rows.len(),
    ensures
        count_name(rows.skip(i), name) == (if rows[i].name@ == name {
            1int
        } else {
            0int
        }) + count_name(rows.skip(i + 1), name),
{
    assert(rows.skip(i).len() > 0);
    assert(rows.skip(i)[0] == rows[i]);
    assert(rows.skip(i).skip(1) =~= rows.skip(i + 1));
}

/// Copies one string, value for value.
fn clone_string(s: &String) -> (r: String)
    ensures
        r == *s,
{
    s.clone()
}

/// Copies one row, value for value.
pub fn clone_row(r: &Row) -> (out: Row)
    ensures
        out == *r,
{
    Row { id: r.id, name: clone_string(&r.name), quantity: r.quantity }
}

/// Compares a stored name against a parameter value.
fn string_eq(s: &String, t: &String) -> (r: bool)
    ensures
        r <==> s@ == t@,
{
    s.eq(t)
}

/// Well-formedness only looks at the ids and the sequence bound, so a table
/// whose rows keep their ids row for row stays well formed.
pub proof fn lemma_wf_same_ids(t0: Table, t1: Table)
    requires
        t0.wf(),
        t1.rows@.len() == t0.rows@.len(),
        forall|i: int|
            0 <= i < t1.rows@.len() ==> (#[trigger] t1.rows@[i]).id == t0.rows@[i].id,
        t1.next_id == t0.next_id,
    ensures
        t1.wf(),
{
    assert forall|i: int, j: int|
        0 <= i < j < t1.rows@.len() implies (#[trigger] t1.rows@[i].id)
        < (#[trigger] t1.rows@[j].id) by {
        assert(t0.rows@[i].id < t0.rows@[j].id);
    }
    assert forall|i: int|
        0 <= i < t1.rows@.len() implies 1 <= (#[trigger] t1.rows@[i]).id < t1.next_id by {
        assert(1 <= t0.rows@[i].id < t0.next_id);
    }
}

/// Removing a row keeps a table well formed: the surviving ids keep their
/// relative order and stay below the sequence bound.
pub proof fn lemma_wf_remove(t0: Table, t1: Table, at: int)
    requires
        t0.wf(),
        0 <= at < t0.rows@.len(),
        t1.rows@ == t0.rows@.remove(at),
        t1.next_id == t0.next_id,
    ensures
        t1.wf(),
{
    assert forall|i: int, j: int|
        0 <= i < j < t1.rows@.len() implies (#[trigger] t1.rows@[i].id)
        < (#[trigger] t1.rows@[j].id) by {
        let i0 = if i < at {
            i
        } else {
            i + 1
        };
        let j0 = if j < at {
            j
        } else {
            j + 1
        };
        assert(t1.rows@[i] == t0.rows@[i0]);
        assert(t1.rows@[j] == t0.rows@[j0]);
        assert(t0.rows@[i0].id < t0.rows@[j0].id);
    }
    assert forall|i: int|
        0 <= i < t1.rows@.len() implies 1 <= (#[trigger] t1.rows@[i]).id < t1.next_id by {
        let i0 = if i < at {
            i
        } else {
            i + 1
        };
        assert(t1.rows@[i] == t0.rows@[i0]);
        assert(1 <= t0.rows@[i0].id < t0.next_id);
    }
}

} // verus!
