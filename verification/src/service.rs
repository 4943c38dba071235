//! The request handlers' decisions, as functions from plain values to plain
//! values, and the laws that tie an insert to the listing that follows it.
use crate::response::{
    insert_response, rows_to_json, spec_insert_response, spec_list_json, spec_row_json,
    spec_rows_json_items,
};
use crate::row::{DataRow, RowModel};
use crate::table::{ids_unique, spec_contains_id, InsertError, Table};
use vstd::prelude::*;

verus! {

/// Answers a listing request: the JSON array of every row the table holds,
/// `[]` included when it holds none — an empty table is not an error.
pub fn list_response(table: &Table) -> (r: String)
    ensures
        r@ == spec_list_json(table@),
{
    rows_to_json(table.rows())
}

/// Answers an insert request: appends the row and confirms it, or refuses a
/// duplicate id and leaves the table exactly as it was.
pub fn insert_row(table: &mut Table, row: DataRow) -> (r: Result<String, InsertError>)
    ensures
        spec_contains_id(old(table)@, row@.id) ==> r == Err::<String, InsertError>(
            InsertError::DuplicateId,
        ) && final(table)@ == old(table)@,
        !spec_contains_id(old(table)@, row@.id) ==> {
            &&& r is Ok
            &&& r->Ok_0@ == spec_insert_response(row@.id, row@.text)
            &&& final(table)@ == old(table)@.push(row@)
        },
        ids_unique(old(table)@) ==> ids_unique(final(table)@),
{
    if table.contains_id(row.id) {
        Err(InsertError::DuplicateId)
    } else {
        let confirmation = insert_response(row.id, row.value.text.as_str());
        let _ = table.insert(row);
        Ok(confirmation)
    }
}

/// After an insert of `row`, the table holds a row with exactly the
/// inserted id, value bits and value text: what was posted is what a
/// listing finds.
pub proof fn lemma_inserted_row_is_listed(pre: Seq<RowModel>, row: RowModel)
    ensures
        spec_contains_id(pre.push(row), row.id),
        exists|i: int|
            0 <= i < pre.push(row).len() && pre.push(row)[i].id == row.id && pre.push(row)[i].bits
                == row.bits && pre.push(row)[i].text == row.text,
{
    let post = pre.push(row);
    assert(post[pre.len() as int] == row);
}

/// What the listing shows just after an insert: everything that was listed
/// before, then the new row's JSON object, then the closing bracket.
pub open spec fn spec_listing_prefix(pre: Seq<RowModel>) -> Seq<char> {
    if pre.len() == 0 {
        "["@
    } else {
        "["@ + spec_rows_json_items(pre) + ","@
    }
}

/// After an insert of `row`, the JSON listing ends with `row`'s own JSON
/// object before the closing bracket: the posted row appears in the answer
/// of the listing request that follows.
pub proof fn lemma_inserted_row_in_json(pre: Seq<RowModel>, row: RowModel)
    ensures
        spec_list_json(pre.push(row)) == spec_listing_prefix(pre) + spec_row_json(row) + "]"@,
{
    let post = pre.push(row);
    assert(post.drop_last() =~= pre);
    assert(post.last() == row);
    if pre.len() == 0 {
        assert(post.len() == 1);
        assert(post[0] == row);
        assert(spec_rows_json_items(post) == spec_row_json(row));
    } else {
        assert(spec_rows_json_items(post) == spec_rows_json_items(pre) + ","@ + spec_row_json(
            row,
        ));
        assert(spec_list_json(post) =~= spec_listing_prefix(pre) + spec_row_json(row) + "]"@);
    }
}

/// An empty table lists as the empty JSON array, never as an error.
pub proof fn lemma_empty_listing()
    ensures
        spec_list_json(Seq::<RowModel>::empty()) == "[]"@,
{
    reveal_strlit("[");
    reveal_strlit("]");
    reveal_strlit("[]");
    assert(spec_list_json(Seq::<RowModel>::empty()) =~= "[]"@);
}

} // verus!
