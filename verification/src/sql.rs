//! The fixed SQL statements the workflow issues, and the item names it
//! binds as parameters. Each executable function returns exactly the text
//! that its spec function describes, so callers can reason about the
//! statements a session will send.
use vstd::prelude::*;
use vstd::string::StringExecFns;

verus! {

/// Text of the statement that creates the `inventory` table.
pub open spec fn spec_create_table_sql() -> Seq<char> {
    "CREATE TABLE inventory (id serial PRIMARY KEY, name VARCHAR(50), quantity INTEGER);"@
}

/// Text of the statement that drops the `inventory` table.
pub open spec fn spec_drop_table_sql() -> Seq<char> {
    "DROP TABLE inventory"@
}

/// Text of the insert statement; it returns the generated id.
pub open spec fn spec_insert_sql() -> Seq<char> {
    "INSERT INTO inventory (name, quantity) VALUES ($1, $2) RETURNING id;"@
}

/// Text of the full-table scan.
pub open spec fn spec_select_all_sql() -> Seq<char> {
    "SELECT * FROM inventory;"@
}

/// Text of the point lookup by primary key.
pub open spec fn spec_select_by_id_sql() -> Seq<char> {
    "SELECT name, quantity FROM inventory where id=$1;"@
}

/// Text of the quantity update keyed by name; it returns the new quantity.
pub open spec fn spec_update_sql() -> Seq<char> {
    "UPDATE inventory SET quantity = $1 WHERE name = $2 RETURNING quantity;"@
}

/// Text of the delete by primary key; it returns the deleted row.
pub open spec fn spec_delete_sql() -> Seq<char> {
    "DELETE FROM inventory WHERE id = $1 RETURNING id,name,quantity;"@
}

pub fn create_table_sql() -> (s: &'static str)
    ensures
        s@ == spec_create_table_sql(),
{
    "CREATE TABLE inventory (id serial PRIMARY KEY, name VARCHAR(50), quantity INTEGER);"
}

pub fn drop_table_sql() -> (s: &'static str)
    ensures
        s@ == spec_drop_table_sql(),
{
    "DROP TABLE inventory"
}

pub fn insert_sql() -> (s: &'static str)
    ensures
        s@ == spec_insert_sql(),
{
    "INSERT INTO inventory (name, quantity) VALUES ($1, $2) RETURNING id;"
}

pub fn select_all_sql() -> (s: &'static str)
    ensures
        s@ == spec_select_all_sql(),
{
    "SELECT * FROM inventory;"
}

pub fn select_by_id_sql() -> (s: &'static str)
    ensures
        s@ == spec_select_by_id_sql(),
{
    "SELECT name, quantity FROM inventory where id=$1;"
}

pub fn update_sql() -> (s: &'static str)
    ensures
        s@ == spec_update_sql(),
{
    "UPDATE inventory SET quantity = $1 WHERE name = $2 RETURNING quantity;"
}

pub fn delete_sql() -> (s: &'static str)
    ensures
        s@ == spec_delete_sql(),
{
    "DELETE FROM inventory WHERE id = $1 RETURNING id,name,quantity;"
}

/// The decimal digit character for a small number.
pub open spec fn digit_char(n: int) -> char {
    if n == 1 {
        '1'
    } else if n == 2 {
        '2'
    } else if n == 3 {
        '3'
    } else if n == 4 {
        '4'
    } else {
        '5'
    }
}

/// The name under which row number `n` is seeded: `item-` followed by the
/// decimal digit of `n`.
pub open spec fn spec_item_name(n: int) -> Seq<char> {
    "item-"@.push(digit_char(n))
}

/// Builds the parameter name `item-{n}` for the seeded rows.
pub fn item_name(n: i32) -> (s: String)
    requires
        1 <= n <= 5,
    ensures
        s@ == spec_item_name(n as int),
{
    proof {
        reveal_strlit("item-");
        reveal_strlit("item-1");
        reveal_strlit("item-2");
        reveal_strlit("item-3");
        reveal_strlit("item-4");
        reveal_strlit("item-5");
    }
    let lit: &str = if n == 1 {
        "item-1"
    } else if n == 2 {
        "item-2"
    } else if n == 3 {
        "item-3"
    } else if n == 4 {
        "item-4"
    } else {
        "item-5"
    };
    assert(lit@ =~= spec_item_name(n as int));
    String::from_str(lit)
}

} // verus!
