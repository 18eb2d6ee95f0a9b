//! The session driver: the program as a state machine. Each step takes the
//! outcome of the previous statement and decides the next action — which SQL
//! to send, with which parameter types and values. The caller performs the
//! action against the server and reports back whether it succeeded; every
//! decision, including the one tolerated failure (dropping an absent table)
//! and the fatality of all others, is made here.
use vstd::prelude::*;
use vstd::string::StringExecFns;
use crate::sql;
use crate::sql::{
    spec_item_name,
    spec_drop_table_sql,
    spec_create_table_sql,
    spec_insert_sql,
    spec_select_by_id_sql,
    spec_select_all_sql,
    spec_update_sql,
    spec_delete_sql,
};
use crate::{QUANTITY_MIN, QUANTITY_MAX};
use crate::workflow::random_quantity;
use crate::workflow::random_delete_id;

verus! {

/// A parameter type annotation for a typed prepared statement.
#[derive(Clone, Copy, PartialEq, Eq, Structural, Debug)]
pub enum SqlType {
    Varchar,
    Int4,
}

/// A parameter value bound to a statement.
pub enum SqlValue {
    Int(i32),
    Text(String),
}

/// What the caller must do next.
pub enum Action {
    /// Run a statement and report whether it succeeded.
    Execute { sql: String },
    /// Prepare (typed when `types` is nonempty), bind the parameters, and
    /// expect exactly one returned row; report failure otherwise.
    QueryOne { sql: String, types: Vec<SqlType>, params: Vec<SqlValue> },
    /// Run a query returning any number of rows.
    QueryAll { sql: String },
    /// Close the connection and report whether that succeeded.
    Close,
    /// Stop: the session ended, well or not.
    Done { ok: bool },
}

/// What the caller reports about the action it was last given.
#[derive(Clone, Copy, PartialEq, Eq, Structural, Debug)]
pub enum Event {
    /// Nothing was asked yet: the session begins.
    Start,
    /// The action succeeded.
    Succeeded,
    /// The action failed.
    Failed,
}

/// Where the session stands: which statement is in flight.
#[derive(Clone, Copy, PartialEq, Eq, Structural, Debug)]
pub enum Phase {
    Boot,
    Dropping,
    Creating,
    Inserting { k: i32 },
    LookingUp,
    Scanning,
    Updating { k: i32 },
    Deleting,
    Closing,
    Finished { ok: bool },
}

/// The action is the insert of `name` with a quantity inside the given
/// bounds, typed or plainly prepared as asked.
pub open spec fn insert_action_ok(
    a: Action,
    name: Seq<char>,
    q_lo: int,
    q_hi: int,
    typed: bool,
) -> bool {
    match a {
        Action::QueryOne { sql, types, params } => {
            &&& sql@ == spec_insert_sql()
            &&& (if typed {
                types@ == seq![SqlType::Varchar, SqlType::Int4]
            } else {
                types@ == Seq::<SqlType>::empty()
            })
            &&& params@.len() == 2
            &&& (params@[0] matches SqlValue::Text(n) && n@ == name)
            &&& (params@[1] matches SqlValue::Int(v) && q_lo <= v <= q_hi)
        },
        _ => false,
    }
}

/// The action is the update keyed by `name`, setting a quantity inside the
/// quantity range.
pub open spec fn update_action_ok(a: Action, name: Seq<char>) -> bool {
    match a {
        Action::QueryOne { sql, types, params } => {
            &&& sql@ == spec_update_sql()
            &&& types@ == seq![SqlType::Int4, SqlType::Varchar]
            &&& params@.len() == 2
            &&& (params@[0] matches SqlValue::Int(v) && QUANTITY_MIN <= v <= QUANTITY_MAX)
            &&& (params@[1] matches SqlValue::Text(n) && n@ == name)
        },
        _ => false,
    }
}

/// The action is the point lookup for id 1.
pub open spec fn lookup_action_ok(a: Action) -> bool {
    match a {
        Action::QueryOne { sql, types, params } => {
            &&& sql@ == spec_select_by_id_sql()
            &&& types@ == seq![SqlType::Int4]
            &&& params@.len() == 1
            &&& (params@[0] matches SqlValue::Int(v) && v == 1)
        },
        _ => false,
    }
}

/// The action is the delete of a uniformly drawn id among the first five.
pub open spec fn delete_action_ok(a: Action) -> bool {
    match a {
        Action::QueryOne { sql, types, params } => {
            &&& sql@ == spec_delete_sql()
            &&& types@ == seq![SqlType::Int4]
            &&& params@.len() == 1
            &&& (params@[0] matches SqlValue::Int(v) && 1 <= v <= 5)
        },
        _ => false,
    }
}

/// A phase that tolerates no failure.
pub open spec fn failure_is_fatal(p: Phase) -> bool {
    match p {
        Phase::Boot => false,
        Phase::Dropping => false,
        Phase::Finished { .. } => false,
        _ => true,
    }
}

/// The session driver. The phase is not public: a session can only be
/// started fresh and stepped, so it always stands in a well-formed phase.
pub struct Driver {
    phase: Phase,
}

impl Driver {
    /// Where the session stands.
    pub closed spec fn phase(self) -> Phase {
        self.phase
    }

    /// The in-flight counters stay inside their phases' bounds.
    pub open spec fn wf(self) -> bool {
        match self.phase() {
            Phase::Inserting { k } => 1 <= k <= 6,
            Phase::Updating { k } => 1 <= k <= 5,
            _ => true,
        }
    }

    /// A session that has not started.
    pub fn new() -> (d: Driver)
        ensures
            d.wf(),
            d.phase() == Phase::Boot,
    {
        Driver { phase: Phase::Boot }
    }

    /// One decision: from the phase the session stands in and the outcome
    /// the caller reports, the next phase and the action to perform there.
    /// The drop may fail freely; any other failure finishes the session
    /// unsuccessfully; the successful path runs the statements in the
    /// program's fixed order with the parameters the seeding prescribes.
    pub fn next(&mut self, event: Event) -> (a: Action)
        requires
            old(self).wf(),
        ensures
            final(self).wf(),
            old(self).phase() == Phase::Boot ==> final(self).phase() == Phase::Dropping && (
            a matches Action::Execute { sql } && sql@ == spec_drop_table_sql()),
            old(self).phase() == Phase::Dropping ==> final(self).phase() == Phase::Creating && (
            a matches Action::Execute { sql } && sql@ == spec_create_table_sql()),
            old(self).phase() matches Phase::Finished { ok } ==> final(self).phase()
                == old(self).phase() && a == (Action::Done { ok }),
            failure_is_fatal(old(self).phase()) && event == Event::Failed ==> final(self).phase() == (
            Phase::Finished { ok: false }) && a == (Action::Done { ok: false }),
            old(self).phase() == Phase::Creating && event == Event::Succeeded ==> final(self).phase()
                == (Phase::Inserting { k: 1 }) && insert_action_ok(
                a,
                spec_item_name(1),
                42,
                42,
                false,
            ),
            old(self).phase() matches Phase::Inserting { k } ==> (event != Event::Succeeded || {
                if k == 1 {
                    final(self).phase() == (Phase::Inserting { k: 2 }) && insert_action_ok(
                        a,
                        spec_item_name(2),
                        43,
                        43,
                        true,
                    )
                } else if k <= 4 {
                    final(self).phase() == (Phase::Inserting { k: (k + 1) as i32 }) && insert_action_ok(
                        a,
                        spec_item_name(k + 1),
                        QUANTITY_MIN as int,
                        QUANTITY_MAX as int,
                        true,
                    )
                } else if k == 5 {
                    final(self).phase() == (Phase::Inserting { k: 6 }) && insert_action_ok(
                        a,
                        spec_item_name(1),
                        QUANTITY_MIN as int,
                        QUANTITY_MAX as int,
                        true,
                    )
                } else {
                    final(self).phase() == Phase::LookingUp && lookup_action_ok(a)
                }
            }),
            old(self).phase() == Phase::LookingUp && event == Event::Succeeded ==> final(self).phase()
                == Phase::Scanning && (a matches Action::QueryAll { sql } && sql@
                == spec_select_all_sql()),
            old(self).phase() == Phase::Scanning && event == Event::Succeeded ==> final(self).phase()
                == (Phase::Updating { k: 1 }) && update_action_ok(a, spec_item_name(1)),
            old(self).phase() matches Phase::Updating { k } ==> (event != Event::Succeeded || {
                if k <= 4 {
                    final(self).phase() == (Phase::Updating { k: (k + 1) as i32 }) && update_action_ok(
                        a,
                        spec_item_name(k + 1),
                    )
                } else {
                    final(self).phase() == Phase::Deleting && delete_action_ok(a)
                }
            }),
            old(self).phase() == Phase::Deleting && event == Event::Succeeded ==> final(self).phase()
                == Phase::Closing && a == Action::Close,
            old(self).phase() == Phase::Closing && event == Event::Succeeded ==> final(self).phase()
                == (Phase::Finished { ok: true }) && a == (Action::Done { ok: true }),
    {
        let (phase, action) = match (self.phase, event) {
            (Phase::Boot, _) => (
                Phase::Dropping,
                Action::Execute { sql: String::from_str(sql::drop_table_sql()) },
            ),
            (Phase::Dropping, _) => (
                Phase::Creating,
                Action::Execute { sql: String::from_str(sql::create_table_sql()) },
            ),
            (Phase::Finished { ok }, _) => (Phase::Finished { ok }, Action::Done { ok }),
            (_, Event::Failed) => (Phase::Finished { ok: false }, Action::Done { ok: false }),
            (Phase::Creating, _) => (Phase::Inserting { k: 1 }, insert_action(1, 42, false)),
            (Phase::Inserting { k }, _) => {
                if k == 1 {
                    (Phase::Inserting { k: 2 }, insert_action(2, 43, true))
                } else if k <= 4 {
                    (Phase::Inserting { k: k + 1 }, insert_action(k + 1, random_quantity(), true))
                } else if k == 5 {
                    (Phase::Inserting { k: 6 }, insert_action(1, random_quantity(), true))
                } else {
                    (Phase::LookingUp, lookup_action())
                }
            },
            (Phase::LookingUp, _) => (
                Phase::Scanning,
                Action::QueryAll { sql: String::from_str(sql::select_all_sql()) },
            ),
            (Phase::Scanning, _) => (Phase::Updating { k: 1 }, update_action(1)),
            (Phase::Updating { k }, _) => {
                if k <= 4 {
                    (Phase::Updating { k: k + 1 }, update_action(k + 1))
                } else {
                    (Phase::Deleting, delete_action())
                }
            },
            (Phase::Deleting, _) => (Phase::Closing, Action::Close),
            (Phase::Closing, _) => (Phase::Finished { ok: true }, Action::Done { ok: true }),
        };
        self.phase = phase;
        action
    }
}

/// Builds the insert of `item-{name_n}` with quantity `q`, plainly or typed.
fn insert_action(name_n: i32, q: i32, typed: bool) -> (a: Action)
    requires
        1 <= name_n <= 5,
    ensures
        insert_action_ok(a, spec_item_name(name_n as int), q as int, q as int, typed),
{
    let mut types: Vec<SqlType> = Vec::new();
    if typed {
        types.push(SqlType::Varchar);
        types.push(SqlType::Int4);
        proof {
            assert(types@ =~= seq![SqlType::Varchar, SqlType::Int4]);
        }
    } else {
        proof {
            assert(types@ =~= Seq::<SqlType>::empty());
        }
    }
    let mut params: Vec<SqlValue> = Vec::new();
    params.push(SqlValue::Text(sql::item_name(name_n)));
    params.push(SqlValue::Int(q));
    Action::QueryOne { sql: String::from_str(sql::insert_sql()), types, params }
}

/// Builds the update keyed by `item-{name_n}` with a fresh random quantity.
fn update_action(name_n: i32) -> (a: Action)
    requires
        1 <= name_n <= 5,
    ensures
        update_action_ok(a, spec_item_name(name_n as int)),
{
    let mut types: Vec<SqlType> = Vec::new();
    types.push(SqlType::Int4);
    types.push(SqlType::Varchar);
    proof {
        assert(types@ =~= seq![SqlType::Int4, SqlType::Varchar]);
    }
    let mut params: Vec<SqlValue> = Vec::new();
    params.push(SqlValue::Int(random_quantity()));
    params.push(SqlValue::Text(sql::item_name(name_n)));
    Action::QueryOne { sql: String::from_str(sql::update_sql()), types, params }
}

/// Builds the point lookup for id 1.
fn lookup_action() -> (a: Action)
    ensures
        lookup_action_ok(a),
{
    let mut types: Vec<SqlType> = Vec::new();
    types.push(SqlType::Int4);
    proof {
        assert(types@ =~= seq![SqlType::Int4]);
    }
    let mut params: Vec<SqlValue> = Vec::new();
    params.push(SqlValue::Int(1));
    Action::QueryOne { sql: String::from_str(sql::select_by_id_sql()), types, params }
}

/// Builds the delete of a freshly drawn random id.
fn delete_action() -> (a: Action)
    ensures
        delete_action_ok(a),
{
    let mut types: Vec<SqlType> = Vec::new();
    types.push(SqlType::Int4);
    proof {
        assert(types@ =~= seq![SqlType::Int4]);
    }
    let mut params: Vec<SqlValue> = Vec::new();
    params.push(SqlValue::Int(random_delete_id()));
    Action::QueryOne { sql: String::from_str(sql::delete_sql()), types, params }
}

} // verus!
