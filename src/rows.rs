use vstd::prelude::*;

use crate::model::{texts, Row, RowView};

verus! {

/// What a null cell renders as, whatever the column's type: the empty string.
pub open spec fn null_text() -> Seq<char> {
    Seq::empty()
}

/// The rendering of one cell: its text, or the null text for a null cell.
pub open spec fn cell_text(cell: Option<Seq<char>>) -> Seq<char> {
    match cell {
        Some(s) => s,
        None => null_text(),
    }
}

/// The text view of an optional string.
pub open spec fn opt_text(cell: Option<String>) -> Option<Seq<char>> {
    match cell {
        Some(s) => Some(s@),
        None => None,
    }
}

/// One columnar block of a result: named columns of equal height, each cell
/// already rendered as text, or null.
pub struct Batch {
    columns: Vec<String>,
    cells: Vec<Vec<Option<String>>>,
    num_rows: usize,
}

impl Batch {
    #[verifier::type_invariant]
    spec fn shaped(self) -> bool {
        &&& self.cells@.len() == self.columns@.len()
        &&& forall|c: int| 0 <= c < self.cells@.len() ==> #[trigger] self.cells@[c]@.len() == self.num_rows
    }

    /// The names of the batch's fields, in order.
    pub closed spec fn names(&self) -> Seq<Seq<char>> {
        texts(self.columns@)
    }

    /// The number of rows.
    pub closed spec fn height(&self) -> nat {
        self.num_rows as nat
    }

    /// The cell of column `c` in row `r`.
    pub closed spec fn cell(&self, c: int, r: int) -> Option<Seq<char>> {
        opt_text(self.cells@[c]@[r])
    }

    /// Row `r` of the batch, as it is handed out.
    pub open spec fn row_spec(&self, r: int) -> RowView {
        RowView {
            columns: self.names(),
            values: Seq::new(self.names().len(), |c: int| cell_text(self.cell(c, r))),
        }
    }

    /// All rows of the batch, in order.
    pub open spec fn rows_spec(&self) -> Seq<RowView> {
        Seq::new(self.height(), |r: int| self.row_spec(r))
    }

    /// Builds a batch from its field names and its columns of cells (`None`
    /// for a null cell); fails unless there is one column per name and every
    /// column holds `num_rows` cells.
    pub fn new(columns: Vec<String>, cells: Vec<Vec<Option<String>>>, num_rows: usize) -> (r:
        Option<Batch>)
        ensures
            r is Some <==> (cells@.len() == columns@.len() && forall|c: int|
                0 <= c < cells@.len() ==> #[trigger] cells@[c]@.len() == num_rows),
            r matches Some(b) ==> {
                &&& b.names() == texts(columns@)
                &&& b.height() == num_rows
                &&& forall|c: int, i: int|
                    0 <= c < cells@.len() && 0 <= i < num_rows ==> #[trigger] b.cell(c, i)
                        == opt_text(cells@[c]@[i])
            },
    {
        if cells.len() != columns.len() {
            return None;
        }
        let mut c: usize = 0;
        while c < cells.len()
            invariant
                c <= cells@.len(),
                forall|j: int| 0 <= j < c ==> #[trigger] cells@[j]@.len() == num_rows,
            decreases cells@.len() - c,
        {
            if cells[c].len() != num_rows {
                return None;
            }
            c = c + 1;
        }
        Some(Batch { columns, cells, num_rows })
    }

    /// Converts the batch into rows: one per row of the batch, each with all
    /// the field names and the rendering of each of its cells.
    pub fn to_rows(&self) -> (r: Vec<Row>)
        ensures
            crate::model::rows_view(r@) == self.rows_spec(),
            forall|i: int| 0 <= i < r@.len() ==> #[trigger] r@[i].columns@.len() == r@[i].values@.len(),
    {
        proof {
            use_type_invariant(self);
        }
        let mut rows: Vec<Row> = Vec::new();
        let mut i: usize = 0;
        while i < self.num_rows
            invariant
                i <= self.num_rows,
                crate::model::rows_view(rows@) =~= self.rows_spec().take(i as int),
                forall|k: int| 0 <= k < rows@.len() ==> #[trigger] rows@[k].columns@.len() == rows@[k].values@.len(),
                self.cells@.len() == self.columns@.len(),
                forall|c: int| 0 <= c < self.cells@.len() ==> #[trigger] self.cells@[c]@.len() == self.num_rows,
            decreases self.num_rows - i,
        {
            let row = self.row_at(i);
            let ghost before = rows@;
            rows.push(row);
            assert(crate::model::rows_view(rows@) =~= crate::model::rows_view(before).push(row@));
            assert(self.rows_spec().take(i + 1) =~= self.rows_spec().take(i as int).push(self.row_spec(i as int)));
            i = i + 1;
        }
        assert(self.rows_spec().take(self.num_rows as int) =~= self.rows_spec());
        rows
    }

    fn row_at(&self, i: usize) -> (r: Row)
        requires
            i < self.height(),
        ensures
            r@ == self.row_spec(i as int),
            r.columns@.len() == r.values@.len(),
    {
        proof {
            use_type_invariant(self);
        }
        let columns = copy_texts(&self.columns);
        let mut values: Vec<String> = Vec::new();
        let mut c: usize = 0;
        while c < self.cells.len()
            invariant
                c <= self.cells@.len(),
                i < self.num_rows,
                values@.len() == c,
                texts(values@) =~= Seq::new(c as nat, |j: int| cell_text(self.cell(j, i as int))),
                self.cells@.len() == self.columns@.len(),
                forall|k: int| 0 <= k < self.cells@.len() ==> #[trigger] self.cells@[k]@.len() == self.num_rows,
            decreases self.cells@.len() - c,
        {
            let text = match &self.cells[c][i] {
                Some(s) => s.clone(),
                None => String::new(),
            };
            assert(text@ == cell_text(self.cell(c as int, i as int)));
            let ghost before = values@;
            values.push(text);
            assert(texts(values@) =~= texts(before).push(text@));
            c = c + 1;
        }
        Row { columns, values }
    }
}

/// A copy of a list of strings.
fn copy_texts(v: &Vec<String>) -> (r: Vec<String>)
    ensures
        texts(r@) == texts(v@),
        r@.len() == v@.len(),
{
    let mut out: Vec<String> = Vec::new();
    let mut k: usize = 0;
    while k < v.len()
        invariant
            k <= v@.len(),
            out@.len() == k,
            texts(out@) =~= texts(v@).take(k as int),
        decreases v@.len() - k,
    {
        let ghost before = out@;
        out.push(v[k].clone());
        assert(texts(out@) =~= texts(before).push(v@[k as int]@));
        k = k + 1;
    }
    assert(texts(v@).take(v@.len() as int) =~= texts(v@));
    out
}

} // verus!
