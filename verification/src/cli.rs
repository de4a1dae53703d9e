use crate::display::{COLUMNS, TableDisplayInfo, TableDisplayInfoView, spec_headers};
use vstd::prelude::*;

verus! {

/// The text that the crate `tabled` lays a table out as, in its blank
/// style: `headers` as the first row of the table, then `rows` in their
/// order.
pub uninterp spec fn blank_table(headers: Seq<Seq<char>>, rows: Seq<Seq<Seq<char>>>) -> Seq<char>;

/// Lays a table out with the crate `tabled`: a `Builder` made from the
/// rows and given the headings as its columns builds the `Table`, which is
/// written in `Style::blank`. The text depends on headings and rows
/// alone; it is known here only by the name `blank_table`.
#[verifier::external_body]
fn lay_out_blank(headers: Vec<String>, rows: Vec<Vec<String>>) -> (text: String)
    requires
        forall|i: int| 0 <= i < rows@.len() ==> (#[trigger] rows@[i])@.len() == headers@.len(),
    ensures
        text@ == blank_table(headers.deep_view(), rows.deep_view()),
{
    let mut builder = tabled::builder::Builder::from(rows);
    builder.set_columns(headers);
    builder.build().with(tabled::Style::blank()).to_string()
}

/// The rows of the monitor table: the cells of each monitor of the batch,
/// in the order of the batch.
pub open spec fn table_rows(batch: Seq<TableDisplayInfoView>) -> Seq<Seq<Seq<char>>> {
    Seq::new(batch.len(), |i: int| batch[i].fields())
}

/// The monitor table as text: the headings, then one row for each
/// monitor of the batch, laid out in the blank style.
pub fn render_table(display_info: &Vec<TableDisplayInfo>) -> (text: String)
    ensures
        text@ == blank_table(spec_headers(), table_rows(display_info.deep_view())),
{
    let mut rows: Vec<Vec<String>> = Vec::new();
    let mut i: usize = 0;
    while i < display_info.len()
        invariant
            i <= display_info@.len(),
            rows@.len() == i,
            forall|k: int| 0 <= k < i ==> (#[trigger] rows@[k])@.len() == COLUMNS,
            forall|k: int|
                0 <= k < i ==> (#[trigger] rows@[k]).deep_view() == display_info@[k]@.fields(),
        decreases display_info@.len() - i,
    {
        rows.push(display_info[i].fields());
        i = i + 1;
    }
    assert(rows.deep_view() =~= table_rows(display_info.deep_view()));
    lay_out_blank(TableDisplayInfo::headers(), rows)
}

} // verus!
