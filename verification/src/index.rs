//! The row index: where in the file a row starts, and how many rows there
//! are.
//!
//! The file is scanned once, front to back, while the viewer is already in
//! use. Each record that the scan passes is reported to the index, which
//! keeps the byte offset of a row every so often. A read then starts at the
//! nearest kept offset before the row it wants.

use vstd::prelude::*;

verus! {

/// The byte offset at which a row starts.
#[derive(Clone, Copy, Debug, PartialEq, Eq, Structural)]
pub struct IndexEntry {
    pub row: u64,
    pub offset: u64,
}

/// The estimate of the number of rows in a file of which `scanned` bytes out
/// of `span` held `rows_seen` rows: the rows seen, scaled by the share of the
/// file that was scanned, and never less than the rows seen.
pub open spec fn extrapolate(rows_seen: u64, scanned: u64, span: u64) -> int
    recommends
        scanned > 0,
{
    let scaled = (rows_seen * span) / (scanned as int);
    if scaled >= rows_seen {
        scaled
    } else {
        rows_seen as int
    }
}

/// A row count as a `usize`, cut off at the largest.
pub open spec fn as_count(n: int) -> usize {
    if n <= usize::MAX {
        n as usize
    } else {
        usize::MAX
    }
}

/// What a row index is.
pub struct IndexModel {
    /// The kept offsets. The first is that of row zero.
    pub entries: Seq<IndexEntry>,
    /// The least distance in bytes between two kept offsets.
    pub stride: u64,
    /// How many records the scan has passed.
    pub rows_seen: u64,
    /// The offset behind the last record that the scan has passed.
    pub bytes_seen: u64,
    /// The size of the file in bytes.
    pub file_size: u64,
    /// Whether the scan has reached the end of the file.
    pub done: bool,
}

impl IndexModel {
    /// The index of a file before the scan: row zero starts at `data_start`.
    pub open spec fn start(data_start: u64, file_size: u64, stride: u64) -> IndexModel {
        IndexModel {
            entries: seq![IndexEntry { row: 0, offset: data_start }],
            stride,
            rows_seen: 0,
            bytes_seen: data_start,
            file_size,
            done: false,
        }
    }

    /// Row numbers and offsets both rise strictly from entry to entry, the
    /// first entry is that of row zero, and no entry lies beyond what the
    /// scan has passed.
    pub open spec fn wf(self) -> bool {
        &&& self.entries.len() >= 1
        &&& self.entries[0].row == 0
        &&& forall|i: int, j: int|
            0 <= i < j < self.entries.len() ==> (#[trigger] self.entries[i]).row < (
            #[trigger] self.entries[j]).row && self.entries[i].offset < self.entries[j].offset
        &&& forall|i: int|
            0 <= i < self.entries.len() ==> (#[trigger] self.entries[i]).row <= self.rows_seen
                && self.entries[i].offset <= self.bytes_seen
    }

    /// The offset at which row zero starts.
    pub open spec fn data_start(self) -> u64 {
        self.entries[0].offset
    }

    /// Whether the index takes the report of a record at `start..end`: the
    /// scan is under way, and the record lies behind all that was passed.
    pub open spec fn takes(self, start: u64, end: u64) -> bool {
        &&& !self.done
        &&& self.rows_seen < u64::MAX
        &&& self.bytes_seen <= start < end
    }

    /// Whether the offset of a record at `start` is kept: it lies at least a
    /// stride behind the last kept offset, and belongs to a later row.
    pub open spec fn keeps(self, start: u64) -> bool {
        let last = self.entries.last();
        &&& last.row < self.rows_seen
        &&& last.offset < start
        &&& start - last.offset >= self.stride
    }

    /// The index after the scan reported the next record, at `start..end`.
    /// A report that the index does not take changes nothing.
    pub open spec fn observe(self, start: u64, end: u64) -> IndexModel {
        if !self.takes(start, end) {
            self
        } else {
            IndexModel {
                entries: if self.keeps(start) {
                    self.entries.push(IndexEntry { row: self.rows_seen, offset: start })
                } else {
                    self.entries
                },
                rows_seen: (self.rows_seen + 1) as u64,
                bytes_seen: end,
                ..self
            }
        }
    }

    /// The index after the scan reached the end of the file.
    pub open spec fn finish(self) -> IndexModel {
        IndexModel { done: true, ..self }
    }

    /// Whether `entry` is the kept offset to start from for `row`: the one of
    /// the highest row that is not behind `row`.
    pub open spec fn is_floor(self, entry: IndexEntry, row: u64) -> bool {
        &&& self.entries.contains(entry)
        &&& entry.row <= row
        &&& forall|i: int|
            0 <= i < self.entries.len() && (#[trigger] self.entries[i]).row <= row
                ==> self.entries[i].row <= entry.row
    }

    /// The exact number of rows, known once the scan is done.
    pub open spec fn total(self) -> Option<usize> {
        if self.done {
            Some(as_count(self.rows_seen as int))
        } else {
            None
        }
    }

    /// The number of rows as far as it can be told: exact once the scan is
    /// done, extrapolated while it is under way, unknown before it has
    /// passed a byte.
    pub open spec fn total_approx(self) -> Option<usize> {
        if self.done {
            Some(as_count(self.rows_seen as int))
        } else if self.bytes_seen <= self.data_start() {
            None
        } else {
            let scanned = (self.bytes_seen - self.data_start()) as u64;
            let span = if self.file_size >= self.data_start() {
                (self.file_size - self.data_start()) as u64
            } else {
                0
            };
            Some(as_count(extrapolate(self.rows_seen, scanned, span)))
        }
    }
}

/// A report to the index keeps it well formed and rewrites nothing: the
/// entries that were there stay, in their places.
pub proof fn lemma_observe_appends(index: IndexModel, start: u64, end: u64)
    requires
        index.wf(),
    ensures
        index.observe(start, end).wf(),
        index.entries.is_prefix_of(index.observe(start, end).entries),
        index.observe(start, end).data_start() == index.data_start(),
{
}

/// For every row there is exactly one kept offset to start from, and reading
/// from it reaches the row without going back: it belongs to a row at or
/// before the one wanted.
pub proof fn lemma_floor_unique(index: IndexModel, a: IndexEntry, b: IndexEntry, row: u64)
    requires
        index.wf(),
        index.is_floor(a, row),
        index.is_floor(b, row),
    ensures
        a == b,
{
    let i = choose|i: int| 0 <= i < index.entries.len() && index.entries[i] == a;
    let j = choose|j: int| 0 <= j < index.entries.len() && index.entries[j] == b;
    if i < j {
        assert(index.entries[i].row < index.entries[j].row);
    } else if j < i {
        assert(index.entries[j].row < index.entries[i].row);
    }
}

/// While the scan is under way the estimate is never below the number of
/// rows already seen, and once the scan is done it is the exact total.
pub proof fn lemma_total_approx_bounds(index: IndexModel)
    requires
        index.wf(),
    ensures
        index.total_approx() is Some ==> index.total_approx()->0 >= as_count(
            index.rows_seen as int,
        ),
        index.done ==> index.total_approx() == index.total(),
        index.total() is Some ==> index.done,
{
}

/// The row index of one file.
pub struct RowIndex {
    data_start: u64,
    // the kept offsets behind that of row zero
    kept: Vec<IndexEntry>,
    stride: u64,
    rows_seen: u64,
    bytes_seen: u64,
    file_size: u64,
    done: bool,
}

impl View for RowIndex {
    type V = IndexModel;

    closed spec fn view(&self) -> IndexModel {
        IndexModel {
            entries: seq![IndexEntry { row: 0, offset: self.data_start }] + self.kept@,
            stride: self.stride,
            rows_seen: self.rows_seen,
            bytes_seen: self.bytes_seen,
            file_size: self.file_size,
            done: self.done,
        }
    }
}

fn to_count(n: u128) -> (count: usize)
    ensures
        count == as_count(n as int),
{
    if n > usize::MAX as u128 {
        usize::MAX
    } else {
        n as usize
    }
}

impl RowIndex {
    #[verifier::type_invariant]
    closed spec fn inv(&self) -> bool {
        self@.wf()
    }

    /// The index of a file of `file_size` bytes whose first row starts at
    /// `data_start`, keeping offsets at least `stride` bytes apart.
    pub fn new(data_start: u64, file_size: u64, stride: u64) -> (index: RowIndex)
        ensures
            index@ == IndexModel::start(data_start, file_size, stride),
            index@.wf(),
    {
        let index = RowIndex {
            data_start,
            kept: Vec::new(),
            stride,
            rows_seen: 0,
            bytes_seen: data_start,
            file_size,
            done: false,
        };
        assert(index@.entries =~= seq![IndexEntry { row: 0, offset: data_start }]);
        index
    }

    /// The entry at position `i` of the index.
    fn entry(&self, i: usize) -> (entry: IndexEntry)
        requires
            i < self@.entries.len(),
        ensures
            entry == self@.entries[i as int],
    {
        if i == 0 {
            IndexEntry { row: 0, offset: self.data_start }
        } else {
            self.kept[i - 1]
        }
    }

    /// Reports the next record of the scan, which lies at `start..end`.
    /// Returns whether the index took the report.
    pub fn observe(&mut self, start: u64, end: u64) -> (taken: bool)
        ensures
            final(self)@ == old(self)@.observe(start, end),
            final(self)@.wf(),
            taken == old(self)@.takes(start, end),
    {
        proof {
            use_type_invariant(&*self);
        }
        if self.done || self.rows_seen == u64::MAX || start < self.bytes_seen || end <= start {
            return false;
        }
        let row = self.rows_seen;
        let last = self.entry(self.kept.len());
        let keeps = last.row < row && last.offset < start && start - last.offset >= self.stride;
        self.bytes_seen = end;
        self.rows_seen = row + 1;
        if keeps {
            // the list grows outside the index, which stays whole meanwhile
            let mut kept: Vec<IndexEntry> = Vec::new();
            core::mem::swap(&mut self.kept, &mut kept);
            kept.push(IndexEntry { row, offset: start });
            self.kept = kept;
            assert(self@.entries =~= old(self)@.entries.push(IndexEntry { row, offset: start }));
        }
        true
    }

    /// Reports that the scan has reached the end of the file.
    pub fn finish(&mut self)
        ensures
            final(self)@ == old(self)@.finish(),
            final(self)@.wf(),
    {
        proof {
            use_type_invariant(&*self);
        }
        self.done = true;
    }

    /// The kept offset to start reading from for `row`.
    pub fn locate(&self, row: u64) -> (entry: IndexEntry)
        ensures
            self@.wf(),
            self@.is_floor(entry, row),
    {
        proof {
            use_type_invariant(self);
        }
        assert(self@.entries.len() == self.kept.len() + 1);
        assert(forall|i: int| 0 <= i < self.kept.len() ==> self.kept[i] == self@.entries[i + 1]);
        let mut lo: usize = 0;
        let mut hi: usize = self.kept.len();
        while lo < hi
            invariant
                self@.wf(),
                0 <= lo <= hi <= self.kept.len(),
                self@.entries.len() == self.kept.len() + 1,
                forall|i: int| 0 <= i < self.kept.len() ==> self.kept[i] == self@.entries[i + 1],
                forall|i: int| 0 <= i <= lo ==> (#[trigger] self@.entries[i]).row <= row,
                forall|i: int|
                    hi < i < self@.entries.len() ==> (#[trigger] self@.entries[i]).row > row,
            decreases hi - lo,
        {
            let mid = lo + (hi - lo) / 2;
            if self.kept[mid].row <= row {
                assert forall|i: int| 0 <= i <= mid + 1 implies (#[trigger] self@.entries[i]).row
                    <= row by {
                    if i < mid + 1 {
                        assert(self@.entries[i].row < self@.entries[mid + 1].row);
                    }
                }
                lo = mid + 1;
            } else {
                assert forall|i: int| mid < i < self@.entries.len() implies (
                #[trigger] self@.entries[i]).row > row by {
                    if i > mid + 1 {
                        assert(self@.entries[mid + 1].row < self@.entries[i].row);
                    }
                }
                hi = mid;
            }
        }
        self.entry(lo)
    }

    /// The exact number of rows: known once the whole file was scanned.
    pub fn get_total_line_numbers(&self) -> (total: Option<usize>)
        ensures
            total == self@.total(),
    {
        if self.done {
            Some(to_count(self.rows_seen as u128))
        } else {
            None
        }
    }

    /// An estimate of the number of rows, from the share of the file that was
    /// scanned so far. Exact once the whole file was scanned.
    pub fn get_total_line_numbers_approx(&self) -> (total: Option<usize>)
        ensures
            total == self@.total_approx(),
    {
        if self.done {
            return Some(to_count(self.rows_seen as u128));
        }
        if self.bytes_seen <= self.data_start {
            return None;
        }
        let scanned: u64 = self.bytes_seen - self.data_start;
        let span: u64 = if self.file_size >= self.data_start {
            self.file_size - self.data_start
        } else {
            0
        };
        assert(self.rows_seen as u128 * span as u128 <= u128::MAX) by (nonlinear_arith)
            requires
                self.rows_seen <= u64::MAX,
                span <= u64::MAX,
        ;
        let scaled: u128 = (self.rows_seen as u128 * span as u128) / (scanned as u128);
        let estimate: u128 = if scaled >= self.rows_seen as u128 {
            scaled
        } else {
            self.rows_seen as u128
        };
        Some(to_count(estimate))
    }

    /// How many records the scan has passed.
    pub fn rows_seen(&self) -> (rows: u64)
        ensures
            rows == self@.rows_seen,
    {
        self.rows_seen
    }

    /// Whether the scan has reached the end of the file.
    pub fn done(&self) -> (done: bool)
        ensures
            done == self@.done,
    {
        self.done
    }
}

} // verus!
