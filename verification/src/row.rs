//! One record of the file, split into fields.

use vstd::prelude::*;

verus! {

/// What a row is: its number in the file, counted from zero, and the text of
/// each field.
pub struct RowModel {
    pub row_number: u64,
    pub fields: Seq<Seq<char>>,
}

/// A record of the file together with the row number it was read from.
#[derive(Clone, Debug, PartialEq, Eq)]
pub struct Row {
    pub row_number: u64,
    pub fields: Vec<String>,
}

impl View for Row {
    type V = RowModel;

    open spec fn view(&self) -> RowModel {
        RowModel { row_number: self.row_number, fields: self.fields.deep_view() }
    }
}

impl DeepView for Row {
    type V = RowModel;

    open spec fn deep_view(&self) -> RowModel {
        self@
    }
}

/// The fields at the given positions, in the order of the positions. A
/// position past the last field gives an empty text, so that a short record
/// still fills every selected column.
pub open spec fn project(fields: Seq<Seq<char>>, indices: Seq<usize>) -> Seq<Seq<char>> {
    Seq::new(
        indices.len(),
        |k: int|
            if indices[k] < fields.len() {
                fields[indices[k] as int]
            } else {
                Seq::empty()
            },
    )
}

impl RowModel {
    /// The same row with only the fields at the given positions.
    pub open spec fn subset(self, indices: Seq<usize>) -> RowModel {
        RowModel { row_number: self.row_number, fields: project(self.fields, indices) }
    }
}

/// Every row of the batch restricted to the given positions.
pub open spec fn project_rows(rows: Seq<RowModel>, indices: Seq<usize>) -> Seq<RowModel> {
    Seq::new(rows.len(), |j: int| rows[j].subset(indices))
}

impl Row {
    /// Keeps the fields at the given positions, in the order given.
    pub fn subset(&self, indices: &[usize]) -> (out: Row)
        ensures
            out@ == self@.subset(indices@),
    {
        let mut subfields: Vec<String> = Vec::new();
        let mut k: usize = 0;
        while k < indices.len()
            invariant
                k <= indices.len(),
                subfields.len() == k,
                forall|j: int|
                    0 <= j < k ==> (#[trigger] subfields[j])@ == project(
                        self.fields.deep_view(),
                        indices@,
                    )[j],
            decreases indices.len() - k,
        {
            let i: usize = indices[k];
            if i < self.fields.len() {
                subfields.push(self.fields[i].clone());
            } else {
                subfields.push(String::new());
            }
            k += 1;
        }
        let out = Row { row_number: self.row_number, fields: subfields };
        assert(out.fields.deep_view() =~= project(self.fields.deep_view(), indices@));
        out
    }
}

} // verus!
