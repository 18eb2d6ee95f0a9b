//! The demonstration workflow over the table model: schema reset, the six
//! seeding inserts, the point lookup, the full scan, the five updates keyed
//! by name, and the delete. The phases run in this fixed order and every
//! failure but one is fatal: only dropping an absent table is tolerated.
use vstd::prelude::*;
use crate::sql;
use crate::sql::spec_item_name;
use crate::table::{
    Row,
    Table,
    QueryError,
    count_name,
    has_row_with_id,
    updated_row,
    lemma_count_name_step,
    lemma_count_name_nonnegative,
};
use crate::{QUANTITY_MIN, QUANTITY_MAX};

verus! {

/// Relies on rand::random_range: a uniform sample from the given inclusive
/// range, which panics only when the range is empty.
#[verifier::external_body]
fn sample_range(lo: i32, hi: i32) -> (r: i32)
    requires
        lo <= hi,
    ensures
        lo <= r <= hi,
{
    rand::random_range(lo..=hi)
}

/// Draws the quantity bound to an insert or update parameter: uniform over
/// the quantity range.
pub fn random_quantity() -> (q: i32)
    ensures
        QUANTITY_MIN <= q <= QUANTITY_MAX,
{
    sample_range(QUANTITY_MIN, QUANTITY_MAX)
}

/// Draws the id the delete phase targets: uniform over the first five ids.
pub fn random_delete_id() -> (id: i32)
    ensures
        1 <= id <= 5,
{
    sample_range(1, 5)
}

/// The server as the program sees it: whether the `inventory` table exists,
/// and its contents while it does. While the table does not exist its
/// contents are the empty table.
pub struct Database {
    pub exists: bool,
    pub table: Table,
}

impl Database {
    /// The held table is well formed, and an absent table holds nothing.
    pub open spec fn wf(self) -> bool {
        &&& self.table.wf()
        &&& !self.exists ==> self.table.rows@.len() == 0 && self.table.next_id == 1
    }

    /// A fresh server: the table does not exist yet.
    pub fn new() -> (db: Database)
        ensures
            db.wf(),
            !db.exists,
    {
        Database { exists: false, table: Table::new() }
    }

    /// Drops the table: afterwards it does not exist, and the statement
    /// fails exactly when there was nothing to drop.
    pub fn drop_table(&mut self) -> (r: Result<(), QueryError>)
        ensures
            final(self).wf(),
            !final(self).exists,
            r is Ok <==> old(self).exists,
            r is Err ==> r == Err::<(), QueryError>(QueryError::NoRows),
    {
        let existed = self.exists;
        self.exists = false;
        self.table = Table::new();
        if existed {
            Ok(())
        } else {
            Err(QueryError::NoRows)
        }
    }

    /// Creates the table: it fails exactly when the table already exists,
    /// and otherwise leaves an empty table whose id sequence starts at one.
    pub fn create_table(&mut self) -> (r: Result<(), QueryError>)
        requires
            old(self).wf(),
        ensures
            final(self).wf(),
            r is Ok <==> !old(self).exists,
            r is Ok ==> final(self).exists && final(self).table.rows@.len() == 0
                && final(self).table.next_id == 1,
            r is Err ==> *final(self) == *old(self) && r == Err::<(), QueryError>(
                QueryError::ManyRows,
            ),
    {
        if self.exists {
            Err(QueryError::ManyRows)
        } else {
            self.exists = true;
            self.table = Table::new();
            Ok(())
        }
    }

    /// Schema reset: drop, tolerating the one failure that dropping an
    /// absent table gives, then create. Whatever stood before, afterwards
    /// the table exists with no rows and a fresh id sequence; the returned
    /// flag tells whether a table had to be dropped.
    pub fn reset_schema(&mut self) -> (dropped: bool)
        requires
            old(self).wf(),
        ensures
            final(self).wf(),
            final(self).exists,
            final(self).table.rows@.len() == 0,
            final(self).table.next_id == 1,
            dropped <==> old(self).exists,
    {
        let dropped = match self.drop_table() {
            Ok(()) => true,
            Err(_) => false,
        };
        let created = self.create_table();
        proof {
            assert(created is Ok);
        }
        dropped
    }
}

/// The shape the insert phase gives the table, quantities aside: six rows
/// with the server-assigned ids one to six, named `item-1`, `item-2`,
/// `item-3`, `item-4`, `item-5`, `item-1` in insertion order. The update
/// phase preserves this shape.
pub open spec fn seeded_layout(t: Table) -> bool {
    &&& t.rows@.len() == 6
    &&& t.next_id == 7
    &&& forall|i: int| 0 <= i < 6 ==> (#[trigger] t.rows@[i]).id == i + 1
    &&& t.rows@[0].name@ == spec_item_name(1)
    &&& t.rows@[1].name@ == spec_item_name(2)
    &&& t.rows@[2].name@ == spec_item_name(3)
    &&& t.rows@[3].name@ == spec_item_name(4)
    &&& t.rows@[4].name@ == spec_item_name(5)
    &&& t.rows@[5].name@ == spec_item_name(1)
}

/// What the insert phase leaves in the table: the seeded shape, the first
/// two rows with quantities 42 and 43, and the remaining four with the
/// given quantities.
pub open spec fn seeded(t: Table, q3: i32, q4: i32, q5: i32, q6: i32) -> bool {
    &&& seeded_layout(t)
    &&& t.rows@[0].quantity == 42
    &&& t.rows@[1].quantity == 43
    &&& t.rows@[2].quantity == q3
    &&& t.rows@[3].quantity == q4
    &&& t.rows@[4].quantity == q5
    &&& t.rows@[5].quantity == q6
}

/// The insert phase: the plain insert of (`item-1`, 42), the typed insert
/// of (`item-2`, 43), the three randomized typed inserts of `item-3` to
/// `item-5`, and the randomized typed insert that gives `item-1` its second
/// row. Returns the six server-generated ids, which are exactly one to six
/// in order.
pub fn seed(t: &mut Table, q3: i32, q4: i32, q5: i32, q6: i32) -> (ids: Vec<i32>)
    requires
        old(t).wf(),
        old(t).rows@.len() == 0,
        old(t).next_id == 1,
        QUANTITY_MIN <= q3 <= QUANTITY_MAX,
        QUANTITY_MIN <= q4 <= QUANTITY_MAX,
        QUANTITY_MIN <= q5 <= QUANTITY_MAX,
        QUANTITY_MIN <= q6 <= QUANTITY_MAX,
    ensures
        final(t).wf(),
        seeded(*final(t), q3, q4, q5, q6),
        ids@.len() == 6,
        forall|i: int| 0 <= i < 6 ==> ids@[i] == i + 1,
{
    let mut ids: Vec<i32> = Vec::new();
    let id1 = t.insert(sql::item_name(1), 42);
    ids.push(id1);
    let id2 = t.insert(sql::item_name(2), 43);
    ids.push(id2);
    let id3 = t.insert(sql::item_name(3), q3);
    ids.push(id3);
    let id4 = t.insert(sql::item_name(4), q4);
    ids.push(id4);
    let id5 = t.insert(sql::item_name(5), q5);
    ids.push(id5);
    let id6 = t.insert(sql::item_name(1), q6);
    ids.push(id6);
    proof {
        assert(t.rows@[0].id == 1 && t.rows@[1].id == 2 && t.rows@[2].id == 3 && t.rows@[3].id
            == 4 && t.rows@[4].id == 5 && t.rows@[5].id == 6);
        assert(ids@[0] == 1 && ids@[1] == 2 && ids@[2] == 3 && ids@[3] == 4 && ids@[4] == 5
            && ids@[5] == 6);
    }
    ids
}

/// Distinct seed numbers give distinct item names: the two names end in
/// distinct digits.
pub proof fn lemma_item_names_distinct(a: int, b: int)
    requires
        1 <= a <= 5,
        1 <= b <= 5,
        a != b,
    ensures
        spec_item_name(a) != spec_item_name(b),
{
    let base = "item-"@;
    if spec_item_name(a) == spec_item_name(b) {
        assert(base.push(sql::digit_char(a))[base.len() as int] == sql::digit_char(a));
        assert(base.push(sql::digit_char(b))[base.len() as int] == sql::digit_char(b));
        assert(false);
    }
}

/// How many rows carry a name depends on the names alone: two row sequences
/// with the same names position for position give the same count.
pub proof fn lemma_count_name_same_names(r1: Seq<Row>, r2: Seq<Row>, name: Seq<char>)
    requires
        r1.len() == r2.len(),
        forall|i: int| 0 <= i < r1.len() ==> (#[trigger] r1[i]).name@ == r2[i].name@,
    ensures
        count_name(r1, name) == count_name(r2, name),
    decreases r1.len(),
{
    if r1.len() > 0 {
        assert forall|i: int|
            0 <= i < r1.skip(1).len() implies (#[trigger] r1.skip(1)[i]).name@
            == r2.skip(1)[i].name@ by {
            assert(r1.skip(1)[i] == r1[i + 1]);
            assert(r2.skip(1)[i] == r2[i + 1]);
            assert(r1[i + 1].name@ == r2[i + 1].name@);
        }
        lemma_count_name_same_names(r1.skip(1), r2.skip(1), name);
    }
}

/// Spells a six-row count out as the sum over the six positions.
proof fn lemma_count_six(rows: Seq<Row>, nm: Seq<char>)
    requires
        rows.len() == 6,
    ensures
        count_name(rows, nm) == (if rows[0].name@ == nm {
            1int
        } else {
            0int
        }) + (if rows[1].name@ == nm {
            1int
        } else {
            0int
        }) + (if rows[2].name@ == nm {
            1int
        } else {
            0int
        }) + (if rows[3].name@ == nm {
            1int
        } else {
            0int
        }) + (if rows[4].name@ == nm {
            1int
        } else {
            0int
        }) + (if rows[5].name@ == nm {
            1int
        } else {
            0int
        }),
{
    lemma_count_name_step(rows, nm, 0);
    lemma_count_name_step(rows, nm, 1);
    lemma_count_name_step(rows, nm, 2);
    lemma_count_name_step(rows, nm, 3);
    lemma_count_name_step(rows, nm, 4);
    lemma_count_name_step(rows, nm, 5);
    assert(rows.skip(0) =~= rows);
    assert(rows.skip(6) =~= Seq::<Row>::empty());
    assert(count_name(rows.skip(6), nm) == 0);
}

/// The open question the seeding leaves behind, made exact: in a freshly
/// seeded table the duplicated name `item-1` is carried by two rows, while
/// each of the other seeded names is carried by exactly one. An update that
/// expects exactly one row per name therefore cannot succeed on `item-1`.
pub proof fn lemma_seeded_counts(t: Table, q3: i32, q4: i32, q5: i32, q6: i32)
    requires
        seeded(t, q3, q4, q5, q6),
    ensures
        count_name(t.rows@, spec_item_name(1)) == 2,
        forall|k: int| 2 <= k <= 5 ==> count_name(t.rows@, #[trigger] spec_item_name(k)) == 1,
{
    assert forall|a: int, b: int|
        1 <= a <= 5 && 1 <= b <= 5 && a != b implies #[trigger] spec_item_name(a)
        != #[trigger] spec_item_name(b) by {
        lemma_item_names_distinct(a, b);
    }
    lemma_count_six(t.rows@, spec_item_name(1));
    assert forall|k: int|
        2 <= k <= 5 implies count_name(t.rows@, #[trigger] spec_item_name(k)) == 1 by {
        lemma_count_six(t.rows@, spec_item_name(k));
    }
}

/// The row as the first `k` updates of the update phase leave it: for each
/// number up to `k` in turn, the quantity is replaced where the name is that
/// number's item name.
pub open spec fn row_after_updates(r: Row, new_q: Seq<i32>, k: int) -> Row
    decreases k,
{
    if k <= 0 {
        r
    } else {
        updated_row(row_after_updates(r, new_q, k - 1), spec_item_name(k), new_q[k - 1])
    }
}

/// The update phase only replaces quantities: id and name survive it.
pub proof fn lemma_row_after_updates_id_name(r: Row, new_q: Seq<i32>, k: int)
    ensures
        row_after_updates(r, new_q, k).id == r.id,
        row_after_updates(r, new_q, k).name@ == r.name@,
    decreases k,
{
    if k > 0 {
        lemma_row_after_updates_id_name(r, new_q, k - 1);
    }
}

/// The update phase: for each number one to five in turn, set the quantity
/// of the rows named `item-{k}` and expect the statement to return exactly
/// one row. The phase succeeds exactly when every one of the five names is
/// carried by exactly one row; it stops at the first name that is not, with
/// the error that says whether none or several rows carried it. Ids and
/// names are never touched; on success the returned quantities are exactly
/// the requested ones.
pub fn update_phase(t: &mut Table, new_q: &Vec<i32>) -> (r: Result<Vec<i32>, QueryError>)
    requires
        old(t).wf(),
        new_q@.len() == 5,
    ensures
        final(t).wf(),
        final(t).rows@.len() == old(t).rows@.len(),
        final(t).next_id == old(t).next_id,
        forall|i: int|
            0 <= i < old(t).rows@.len() ==> (#[trigger] final(t).rows@[i]).id == old(t).rows@[i].id
                && final(t).rows@[i].name@ == old(t).rows@[i].name@,
        r is Ok <==> (forall|k: int|
            1 <= k <= 5 ==> count_name(old(t).rows@, #[trigger] spec_item_name(k)) == 1),
        r matches Ok(v) ==> v@ == new_q@,
        r is Ok ==> (forall|i: int|
            0 <= i < old(t).rows@.len() ==> #[trigger] final(t).rows@[i] == row_after_updates(
                old(t).rows@[i],
                new_q@,
                5,
            )),
        r matches Err(e) ==> exists|k: int|
            1 <= k <= 5 && #[trigger] count_name(old(t).rows@, spec_item_name(k)) != 1 && (
            forall|j: int| 1 <= j < k ==> count_name(old(t).rows@, #[trigger] spec_item_name(j)) == 1)
                && e == (if count_name(old(t).rows@, spec_item_name(k)) == 0 {
                QueryError::NoRows
            } else {
                QueryError::ManyRows
            }),
{
    let ghost orig = t.rows@;
    proof {
        assert forall|i: int|
            0 <= i < orig.len() implies #[trigger] row_after_updates(orig[i], new_q@, 0)
            == orig[i] by {}
    }
    let mut returned: Vec<i32> = Vec::new();
    let mut k: usize = 1;
    while k <= 5
        invariant
            old(t).wf(),
            t.wf(),
            orig == old(t).rows@,
            new_q@.len() == 5,
            1 <= k <= 6,
            t.rows@.len() == orig.len(),
            t.next_id == old(t).next_id,
            returned@.len() == k - 1,
            forall|j: int| 0 <= j < k - 1 ==> returned@[j] == new_q@[j],
            forall|i: int|
                0 <= i < orig.len() ==> #[trigger] t.rows@[i] == row_after_updates(
                    orig[i],
                    new_q@,
                    k - 1,
                ),
            forall|j: int| 1 <= j < k ==> count_name(orig, #[trigger] spec_item_name(j)) == 1,
        decreases 6 - k,
    {
        let ghost pre = t.rows@;
        proof {
            assert forall|i: int|
                0 <= i < pre.len() implies (#[trigger] pre[i]).name@ == orig[i].name@
                    && pre[i].id == orig[i].id by {
                lemma_row_after_updates_id_name(orig[i], new_q@, k - 1);
            }
            lemma_count_name_same_names(pre, orig, spec_item_name(k as int));
        }
        let name = sql::item_name(k as i32);
        let res = t.update_by_name(&name, new_q[k - 1]);
        match res {
            Ok(q) => {
                returned.push(q);
                proof {
                    lemma_count_name_nonnegative(orig, spec_item_name(k as int));
                    assert(count_name(orig, spec_item_name(k as int)) == 1);
                    assert(q == new_q@[k - 1]);
                    assert forall|i: int|
                        0 <= i < orig.len() implies #[trigger] t.rows@[i] == row_after_updates(
                        orig[i],
                        new_q@,
                        k as int,
                    ) by {
                        assert(t.rows@[i] == updated_row(
                            pre[i],
                            spec_item_name(k as int),
                            new_q@[k - 1],
                        ));
                    }
                }
            },
            Err(e) => {
                proof {
                    assert forall|i: int|
                        0 <= i < orig.len() implies (#[trigger] t.rows@[i]).id == orig[i].id
                            && t.rows@[i].name@ == orig[i].name@ by {
                        assert(t.rows@[i] == updated_row(
                            pre[i],
                            spec_item_name(k as int),
                            new_q@[k - 1],
                        ));
                        lemma_row_after_updates_id_name(orig[i], new_q@, k - 1);
                    }
                    assert(count_name(orig, spec_item_name(k as int)) != 1);
                }
                return Err(e);
            },
        }
        k = k + 1;
    }
    proof {
        assert(returned@ =~= new_q@);
        assert forall|i: int|
            0 <= i < orig.len() implies (#[trigger] t.rows@[i]).id == orig[i].id
                && t.rows@[i].name@ == orig[i].name@ by {
            lemma_row_after_updates_id_name(orig[i], new_q@, 5);
        }
    }
    Ok(returned)
}

/// Immediately after seeding, the row with id 1 exists, and any row carrying
/// id 1 is the first seeded one: name `item-1`, quantity 42. Together with
/// the point-lookup contract this pins the lookup's result.
pub proof fn lemma_point_lookup_after_seed(t: Table, q3: i32, q4: i32, q5: i32, q6: i32)
    requires
        t.wf(),
        seeded(t, q3, q4, q5, q6),
    ensures
        has_row_with_id(t.rows@, 1),
        forall|i: int|
            0 <= i < t.rows@.len() && (#[trigger] t.rows@[i]).id == 1 ==> t.rows@[i].name@
                == spec_item_name(1) && t.rows@[i].quantity == 42,
{
    assert(t.rows@[0].id == 1);
}

/// Why the demonstration run stopped: the phase, and how its single-row
/// expectation failed.
#[derive(Clone, Copy, PartialEq, Eq, Structural, Debug)]
pub enum WorkflowError {
    PointLookup(QueryError),
    Update(QueryError),
    Delete(QueryError),
}

/// What a run that got through every phase would report.
pub struct DemoReport {
    pub inserted_ids: Vec<i32>,
    pub lookup_name: String,
    pub lookup_quantity: i32,
    pub scanned: Vec<Row>,
    pub updated: Vec<i32>,
    pub deleted: Row,
}

/// The whole demonstration against one server, in the fixed order: schema
/// reset, the six seeding inserts, the point lookup for id 1, the full scan,
/// the five updates keyed by name, and the delete; the first failure is
/// fatal. The seeding gives `item-1` two rows, so the update phase, whose
/// single-row expectation is part of its contract, always stops the run with
/// the many-rows error: the run never reaches the delete, and it leaves the
/// six seeded rows (ids and names intact) in the table.
pub fn run_demo(
    db: &mut Database,
    q3: i32,
    q4: i32,
    q5: i32,
    q6: i32,
    new_q: &Vec<i32>,
    delete_id: i32,
) -> (r: Result<DemoReport, WorkflowError>)
    requires
        old(db).wf(),
        QUANTITY_MIN <= q3 <= QUANTITY_MAX,
        QUANTITY_MIN <= q4 <= QUANTITY_MAX,
        QUANTITY_MIN <= q5 <= QUANTITY_MAX,
        QUANTITY_MIN <= q6 <= QUANTITY_MAX,
        new_q@.len() == 5,
        1 <= delete_id <= 5,
    ensures
        final(db).wf(),
        final(db).exists,
        r == Err::<DemoReport, WorkflowError>(WorkflowError::Update(QueryError::ManyRows)),
        seeded_layout(final(db).table),
{
    db.reset_schema();
    let inserted_ids = seed(&mut db.table, q3, q4, q5, q6);
    let ghost seeded_table = db.table;
    proof {
        lemma_point_lookup_after_seed(db.table, q3, q4, q5, q6);
        lemma_seeded_counts(seeded_table, q3, q4, q5, q6);
    }
    let looked = db.table.select_by_id(1);
    let (lookup_name, lookup_quantity) = match looked {
        Some(p) => p,
        None => {
            return Err(WorkflowError::PointLookup(QueryError::NoRows));
        },
    };
    let scanned = db.table.select_all();
    let updated = match update_phase(&mut db.table, new_q) {
        Ok(v) => v,
        Err(e) => {
            proof {
                assert(count_name(seeded_table.rows@, spec_item_name(1)) == 2);
                assert(e == QueryError::ManyRows);
                assert(seeded_layout(db.table));
            }
            return Err(WorkflowError::Update(e));
        },
    };
    let deleted = match db.table.delete_by_id(delete_id) {
        Ok(row) => row,
        Err(e) => {
            return Err(WorkflowError::Delete(e));
        },
    };
    Ok(DemoReport { inserted_ids, lookup_name, lookup_quantity, scanned, updated, deleted })
}

} // verus!
