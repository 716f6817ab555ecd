//! Rows out of a run of parsed records.
//!
//! Reading starts at an indexed position and parses forward. What comes back
//! is a run of consecutive records; this module numbers them and picks the
//! rows that were asked for.

use crate::index::{IndexEntry, IndexModel};
use crate::row::{Row, RowModel};
use vstd::prelude::*;

verus! {

/// What a chunk is.
pub struct ChunkModel {
    /// The row number of the first record.
    pub first_row: u64,
    /// The fields of each record.
    pub records: Seq<Seq<Seq<char>>>,
}

impl ChunkModel {
    /// Whether the chunk holds the row with this number.
    pub open spec fn holds(self, row_number: u64) -> bool {
        self.first_row <= row_number < self.first_row + self.records.len()
    }

    /// The row with this number, for a number that the chunk holds.
    pub open spec fn row(self, row_number: u64) -> RowModel {
        RowModel {
            row_number,
            fields: self.records[row_number - self.first_row],
        }
    }

    /// The first row number of the range that the chunk can serve.
    pub open spec fn range_start(self, rows_from: u64) -> int {
        if rows_from >= self.first_row {
            rows_from as int
        } else {
            self.first_row as int
        }
    }

    /// One past the last row number of the range that the chunk can serve.
    pub open spec fn range_end(self, rows_from: u64, num_rows: u64) -> int {
        let wanted = rows_from + num_rows;
        let held = self.first_row + self.records.len();
        let end = if wanted <= held {
            wanted
        } else {
            held
        };
        if end <= u64::MAX + 1 {
            end
        } else {
            u64::MAX + 1
        }
    }

    /// The rows numbered `rows_from` up to, not including,
    /// `rows_from + num_rows`, as far as the chunk holds them.
    pub open spec fn range(self, rows_from: u64, num_rows: u64) -> Seq<RowModel> {
        let start = self.range_start(rows_from);
        let end = self.range_end(rows_from, num_rows);
        if end <= start {
            Seq::empty()
        } else {
            Seq::new((end - start) as nat, |j: int| self.row((start + j) as u64))
        }
    }

    /// One row for each of the numbers that the chunk holds, in the order of
    /// the numbers.
    pub open spec fn pick(self, indices: Seq<u64>) -> Seq<RowModel> {
        indices.filter(|n: u64| self.holds(n)).map_values(|n: u64| self.row(n))
    }
}

/// How many rows a chunk that starts at or before `rows_from` can serve of
/// the range: as many as were asked for, or as many as it holds from
/// `rows_from` on, or as many as there are row numbers left.
pub open spec fn served(chunk: ChunkModel, rows_from: u64, num_rows: u64) -> int {
    let held = chunk.first_row + chunk.records.len() - rows_from;
    let numbered = u64::MAX + 1 - rows_from;
    if !chunk.holds(rows_from) {
        0
    } else if num_rows <= held && num_rows <= numbered {
        num_rows as int
    } else if held <= numbered {
        held
    } else {
        numbered
    }
}

/// A chunk that starts at or before `rows_from` serves the rows numbered
/// `rows_from`, `rows_from + 1` and so on, without a gap and none twice, up
/// to the end of the range or of the chunk, whichever comes first.
pub proof fn lemma_range_consecutive(chunk: ChunkModel, rows_from: u64, num_rows: u64)
    requires
        chunk.first_row <= rows_from,
    ensures
        chunk.range(rows_from, num_rows).len() == served(chunk, rows_from, num_rows),
        forall|j: int|
            0 <= j < chunk.range(rows_from, num_rows).len() ==> {
                &&& (#[trigger] chunk.range(rows_from, num_rows)[j]).row_number == rows_from + j
                &&& chunk.range(rows_from, num_rows)[j].fields == chunk.records[rows_from
                    - chunk.first_row + j]
            },
{
}

/// A chunk read from the offset that the index gives for `rows_from` starts
/// at or before that row. The rows that it serves are therefore numbered
/// `rows_from`, `rows_from + 1` and so on.
pub proof fn lemma_located_chunk_serves(
    index: IndexModel,
    entry: IndexEntry,
    chunk: ChunkModel,
    rows_from: u64,
    num_rows: u64,
)
    requires
        index.is_floor(entry, rows_from),
        chunk.first_row == entry.row,
    ensures
        chunk.range(rows_from, num_rows).len() == served(chunk, rows_from, num_rows),
        forall|j: int|
            0 <= j < chunk.range(rows_from, num_rows).len() ==> (#[trigger] chunk.range(
                rows_from,
                num_rows,
            )[j]).row_number == rows_from + j,
{
    lemma_range_consecutive(chunk, rows_from, num_rows);
}

/// A run of consecutive records, parsed forward from a known position.
#[derive(Clone, Debug, PartialEq, Eq)]
pub struct Chunk {
    /// The row number of the first record.
    pub first_row: u64,
    /// The fields of each record, in file order.
    pub records: Vec<Vec<String>>,
}

impl View for Chunk {
    type V = ChunkModel;

    open spec fn view(&self) -> ChunkModel {
        ChunkModel { first_row: self.first_row, records: self.records.deep_view() }
    }
}

fn copy_fields(fields: &Vec<String>) -> (copy: Vec<String>)
    ensures
        copy.deep_view() == fields.deep_view(),
{
    let mut copy: Vec<String> = Vec::new();
    let mut i: usize = 0;
    while i < fields.len()
        invariant
            i <= fields.len(),
            copy.len() == i,
            forall|k: int| 0 <= k < i ==> (#[trigger] copy[k])@ == fields[k]@,
        decreases fields.len() - i,
    {
        copy.push(fields[i].clone());
        i += 1;
    }
    assert(copy.deep_view() =~= fields.deep_view());
    copy
}

impl Chunk {
    /// The row with this number.
    fn row_at(&self, row_number: u64) -> (row: Row)
        requires
            self@.holds(row_number),
        ensures
            row@ == self@.row(row_number),
    {
        assert(self@.records.len() == self.records.len());
        let k: usize = (row_number - self.first_row) as usize;
        assert(self.records.deep_view()[k as int] == self.records[k as int].deep_view());
        Row { row_number, fields: copy_fields(&self.records[k]) }
    }

    /// Whether the chunk holds the row with this number.
    pub fn holds(&self, row_number: u64) -> (held: bool)
        ensures
            held == self@.holds(row_number),
    {
        row_number >= self.first_row && row_number - self.first_row < self.records.len() as u64
    }

    /// The rows numbered `rows_from` up to, not including,
    /// `rows_from + num_rows`: fewer where the chunk ends first, none where
    /// `rows_from` lies beyond its end.
    pub fn get_rows(&self, rows_from: u64, num_rows: u64) -> (rows: Vec<Row>)
        ensures
            rows.deep_view() == self@.range(rows_from, num_rows),
    {
        let mut rows: Vec<Row> = Vec::new();
        let start: u64 = if rows_from >= self.first_row {
            rows_from
        } else {
            self.first_row
        };
        if !self.holds(start) {
            assert(self@.range(rows_from, num_rows) =~= Seq::empty());
            assert(rows.deep_view() =~= Seq::empty());
            return rows;
        }
        // how many rows lie between `start` and the end of the range
        let wanted: u64 = if start - rows_from >= num_rows {
            0
        } else {
            num_rows - (start - rows_from)
        };
        let held: u64 = self.records.len() as u64 - (start - self.first_row);
        let mut count: u64 = if wanted <= held {
            wanted
        } else {
            held
        };
        if count > u64::MAX - start {
            count = u64::MAX - start + 1;
        }
        assert(count == self@.range(rows_from, num_rows).len());
        let mut j: u64 = 0;
        while j < count
            invariant
                j <= count,
                count == self@.range(rows_from, num_rows).len(),
                start == self@.range_start(rows_from),
                start + count <= self.first_row + self.records.len(),
                start + count <= u64::MAX + 1,
                self.first_row <= start,
                rows.len() == j,
                forall|k: int|
                    0 <= k < j ==> (#[trigger] rows[k])@ == self@.row((start + k) as u64),
            decreases count - j,
        {
            rows.push(self.row_at(start + j));
            j += 1;
        }
        assert(rows.deep_view() =~= self@.range(rows_from, num_rows));
        rows
    }

    /// One row for each of the given numbers that the chunk holds, in the
    /// order given. A number that the chunk does not hold is passed over.
    pub fn get_rows_for_indices(&self, indices: &Vec<u64>) -> (rows: Vec<Row>)
        ensures
            rows.deep_view() == self@.pick(indices@),
    {
        let mut rows: Vec<Row> = Vec::new();
        let mut i: usize = 0;
        assert(indices@.take(0) =~= Seq::empty());
        assert(rows.deep_view() =~= self@.pick(Seq::empty())) by {
            reveal(Seq::filter);
        }
        while i < indices.len()
            invariant
                i <= indices.len(),
                rows.deep_view() == self@.pick(indices@.take(i as int)),
            decreases indices.len() - i,
        {
            let n = indices[i];
            let ghost before = rows.deep_view();
            proof {
                let taken = indices@.take(i as int);
                assert(indices@.take(i + 1) =~= taken.push(n));
                taken.lemma_filter_push(n, |n: u64| self@.holds(n));
                taken.filter(|n: u64| self@.holds(n)).lemma_push_map_commute(
                    |n: u64| self@.row(n),
                    n,
                );
            }
            if self.holds(n) {
                rows.push(self.row_at(n));
                assert(rows.deep_view() =~= before.push(self@.row(n)));
            }
            i += 1;
        }
        assert(indices@.take(i as int) =~= indices@);
        rows
    }
}

} // verus!
