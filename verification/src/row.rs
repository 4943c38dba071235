//! One stored row, as the verified core sees it.
use vstd::prelude::*;

verus! {

/// The stored value of a row: a 32-bit floating-point number, carried as
/// plain data. `bits` is its exact bit pattern, the representation the
/// store keeps and the measure of value equality; `text` is its decimal
/// rendering, the form the HTTP responses show. Both are produced at the
/// boundary that parses the request path; the core never re-derives one
/// from the other.
pub struct Value {
    pub bits: u32,
    pub text: String,
}

/// One row of the table: a caller-supplied id and its value.
pub struct DataRow {
    pub id: i32,
    pub value: Value,
}

/// The mathematical content of one row.
pub ghost struct RowModel {
    pub id: int,
    pub bits: u32,
    pub text: Seq<char>,
}

impl View for DataRow {
    type V = RowModel;

    open spec fn view(&self) -> RowModel {
        RowModel { id: self.id as int, bits: self.value.bits, text: self.value.text@ }
    }
}

/// The contents of a sequence of rows, row by row.
pub open spec fn row_views(rows: Seq<DataRow>) -> Seq<RowModel> {
    rows.map_values(|r: DataRow| r@)
}

} // verus!
