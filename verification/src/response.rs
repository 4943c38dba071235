//! The exact texts the service answers with: the constant health response,
//! the insert confirmation, and the JSON listing of the table.
use crate::decimal::{i32_to_decimal, spec_idec};
use crate::row::{row_views, DataRow, RowModel};
use vstd::prelude::*;

verus! {

/// The body of the health response, independent of any state.
pub fn root_response() -> (r: String)
    ensures
        r@ == "Hello world!"@,
{
    "Hello world!".to_owned()
}

/// The confirmation text for one inserted row.
pub open spec fn spec_insert_response(id: int, text: Seq<char>) -> Seq<char> {
    "Inserted data with id: "@ + spec_idec(id) + ", value: "@ + text
}

/// Builds the confirmation text echoing the inserted id and value.
pub fn insert_response(id: i32, value_text: &str) -> (r: String)
    ensures
        r@ == spec_insert_response(id as int, value_text@),
{
    let mut r = "Inserted data with id: ".to_owned();
    let digits = i32_to_decimal(id);
    r.append(digits.as_str());
    r.append(", value: ");
    r.append(value_text);
    r
}

/// The JSON object for one row.
pub open spec fn spec_row_json(row: RowModel) -> Seq<char> {
    "{\"id\":"@ + spec_idec(row.id) + ",\"value\":"@ + row.text + "}"@
}

/// Builds the JSON object for one row.
pub fn row_json(row: &DataRow) -> (r: String)
    ensures
        r@ == spec_row_json(row@),
{
    let mut r = "{\"id\":".to_owned();
    let digits = i32_to_decimal(row.id);
    r.append(digits.as_str());
    r.append(",\"value\":");
    r.append(row.value.text.as_str());
    r.append("}");
    r
}

/// The row objects joined with commas, in order.
pub open spec fn spec_rows_json_items(rows: Seq<RowModel>) -> Seq<char>
    decreases rows.len(),
{
    if rows.len() == 0 {
        Seq::<char>::empty()
    } else if rows.len() == 1 {
        spec_row_json(rows[0])
    } else {
        spec_rows_json_items(rows.drop_last()) + ","@ + spec_row_json(rows.last())
    }
}

/// The whole listing: a JSON array of the row objects, `[]` when empty.
pub open spec fn spec_list_json(rows: Seq<RowModel>) -> Seq<char> {
    "["@ + spec_rows_json_items(rows) + "]"@
}

/// One step of the listing: the items of the first `i + 1` rows extend the
/// items of the first `i`, with a comma between objects.
proof fn lemma_items_step(rows: Seq<RowModel>, i: int)
    requires
        0 <= i < rows.len(),
    ensures
        spec_rows_json_items(rows.take(i + 1)) == if i == 0 {
            spec_row_json(rows[0])
        } else {
            spec_rows_json_items(rows.take(i)) + ","@ + spec_row_json(rows[i])
        },
{
    let t = rows.take(i + 1);
    assert(t.drop_last() =~= rows.take(i));
    assert(t.last() == rows[i]);
    if i == 0 {
        assert(t.len() == 1);
        assert(t[0] == rows[0]);
    }
}

/// Builds the JSON array listing every row, in the order given.
pub fn rows_to_json(rows: &Vec<DataRow>) -> (r: String)
    ensures
        r@ == spec_list_json(row_views(rows@)),
{
    let ghost views = row_views(rows@);
    let mut r = "[".to_owned();
    let mut i: usize = 0;
    proof {
        assert(views.take(0) =~= Seq::<RowModel>::empty());
        assert(r@ =~= "["@ + spec_rows_json_items(views.take(0)));
    }
    while i < rows.len()
        invariant
            i <= rows.len(),
            views == row_views(rows@),
            views.len() == rows@.len(),
            r@ == "["@ + spec_rows_json_items(views.take(i as int)),
        decreases rows.len() - i,
    {
        if i > 0 {
            r.append(",");
        }
        let item = row_json(&rows[i]);
        r.append(item.as_str());
        proof {
            assert(views[i as int] == rows@[i as int]@);
            lemma_items_step(views, i as int);
            assert(r@ =~= "["@ + spec_rows_json_items(views.take(i + 1)));
        }
        i += 1;
    }
    proof {
        assert(views.take(rows@.len() as int) =~= views);
    }
    r.append("]");
    r
}

} // verus!
