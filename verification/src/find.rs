//! The search engine: which rows match a pattern, found a row at a time.

use crate::pattern::{accepted, compile, compiled, PatternError};
use crate::row::{Row, RowModel};
use regex::Regex;
use vstd::prelude::*;

verus! {

/// Where a search stands.
#[derive(Clone, Copy, Debug, PartialEq, Eq, Structural)]
pub enum ScanState {
    /// Rows are still being handed in.
    Scanning,
    /// Every row of the file has been seen.
    Finished,
    /// The search was called off; its results are gone.
    Terminated,
}

/// Whether some field of a record belongs to `lang`.
pub open spec fn fields_match(lang: Set<Seq<char>>, fields: Seq<Seq<char>>) -> bool {
    exists|i: int| 0 <= i < fields.len() && lang.contains(#[trigger] fields[i])
}

/// The part of `found` from position `from` on, at most `num` entries long and
/// cut off where `found` ends.
pub open spec fn window(found: Seq<u64>, from: nat, num: nat) -> Seq<u64> {
    let start = if from <= found.len() {
        from
    } else {
        found.len()
    };
    let end = if from + num <= found.len() {
        from + num
    } else {
        found.len()
    };
    found.subrange(start as int, end as int)
}

/// Whether the numbers rise strictly from one to the next.
pub open spec fn ascending(numbers: Seq<u64>) -> bool {
    forall|i: int, j: int| 0 <= i < j < numbers.len() ==> numbers[i] < numbers[j]
}

/// What a search engine is.
pub struct FinderModel {
    /// The texts that the search pattern matches.
    pub accepted: Set<Seq<char>>,
    /// The numbers of the matching rows, in the order in which they were found.
    pub found: Seq<u64>,
    /// The number of the last row scanned, if any.
    pub last: Option<u64>,
    pub state: ScanState,
}

impl FinderModel {
    /// A search that has seen no row yet.
    pub open spec fn start(lang: Set<Seq<char>>) -> FinderModel {
        FinderModel { accepted: lang, found: Seq::empty(), last: None, state: ScanState::Scanning }
    }

    /// The matches are in strictly ascending row order and none lies beyond
    /// the last row scanned.
    pub open spec fn wf(self) -> bool {
        &&& ascending(self.found)
        &&& self.found.len() > 0 ==> self.last is Some
        &&& forall|i: int|
            0 <= i < self.found.len() ==> (#[trigger] self.found[i]) <= self.last->0
    }

    /// Whether the search takes the row with this number: it is still
    /// scanning, and the row lies after every row scanned so far.
    pub open spec fn takes(self, row_number: u64) -> bool {
        &&& self.state == ScanState::Scanning
        &&& (self.last is Some ==> self.last->0 < row_number)
    }

    /// The search after it was handed a row. A row that it does not take
    /// changes nothing; one that it takes is recorded when it matches.
    pub open spec fn scan(self, row: RowModel) -> FinderModel {
        if !self.takes(row.row_number) {
            self
        } else if fields_match(self.accepted, row.fields) {
            FinderModel {
                found: self.found.push(row.row_number),
                last: Some(row.row_number),
                ..self
            }
        } else {
            FinderModel { last: Some(row.row_number), ..self }
        }
    }

    /// The search after it was handed each of the rows in turn.
    pub open spec fn scan_all(self, rows: Seq<RowModel>) -> FinderModel
        decreases rows.len(),
    {
        if rows.len() == 0 {
            self
        } else {
            self.scan_all(rows.drop_last()).scan(rows.last())
        }
    }
}

/// A row handed to a search leaves the matches found so far where they were:
/// the list only grows at its end.
pub proof fn lemma_scan_extends(search: FinderModel, row: RowModel)
    requires
        search.wf(),
    ensures
        search.scan(row).wf(),
        search.found.is_prefix_of(search.scan(row).found),
        search.scan(row).accepted == search.accepted,
{
}

/// However many rows a search is handed, the matches found before stay first
/// and in their order.
pub proof fn lemma_scan_all_extends(search: FinderModel, rows: Seq<RowModel>)
    requires
        search.wf(),
    ensures
        search.scan_all(rows).wf(),
        search.found.is_prefix_of(search.scan_all(rows).found),
    decreases rows.len(),
{
    if rows.len() > 0 {
        lemma_scan_all_extends(search, rows.drop_last());
        lemma_scan_extends(search.scan_all(rows.drop_last()), rows.last());
    }
}

/// A window over the matches does not change when more matches are found
/// behind it: what it showed stays in front, and a window that was full stays
/// as it was.
pub proof fn lemma_window_stable(before: Seq<u64>, after: Seq<u64>, from: nat, num: nat)
    requires
        before.is_prefix_of(after),
    ensures
        window(before, from, num).is_prefix_of(window(after, from, num)),
        from + num <= before.len() ==> window(after, from, num) == window(before, from, num),
{
    if from + num <= before.len() {
        assert(window(after, from, num) =~= window(before, from, num));
    }
}

/// A window over ascending matches is ascending.
pub proof fn lemma_window_ascending(found: Seq<u64>, from: nat, num: nat)
    requires
        ascending(found),
    ensures
        ascending(window(found, from, num)),
{
}

/// The search engine for one pattern. Rows are handed to it in file order; it
/// keeps the numbers of those that match.
pub struct Finder {
    target: Regex,
    found: Vec<u64>,
    last: Option<u64>,
    state: ScanState,
}

impl View for Finder {
    type V = FinderModel;

    closed spec fn view(&self) -> FinderModel {
        FinderModel {
            accepted: accepted(self.target),
            found: self.found@,
            last: self.last,
            state: self.state,
        }
    }
}

/// Whether the pattern matches some field of a record.
pub fn matches_any(target: &Regex, fields: &Vec<String>) -> (hit: bool)
    ensures
        hit == fields_match(accepted(*target), fields.deep_view()),
{
    let mut i: usize = 0;
    while i < fields.len()
        invariant
            i <= fields.len(),
            forall|k: int| 0 <= k < i ==> !accepted(*target).contains(#[trigger] fields[k]@),
        decreases fields.len() - i,
    {
        if target.is_match(fields[i].as_str()) {
            assert(fields.deep_view()[i as int] == fields[i as int]@);
            return true;
        }
        i += 1;
    }
    assert forall|k: int| 0 <= k < fields.deep_view().len() implies !accepted(*target).contains(
        #[trigger] fields.deep_view()[k],
    ) by {
        assert(fields.deep_view()[k] == fields[k]@);
    }
    false
}

impl Finder {
    #[verifier::type_invariant]
    closed spec fn inv(&self) -> bool {
        self@.wf()
    }

    /// A search for `target` that has seen no row yet.
    pub fn new(target: Regex) -> (finder: Finder)
        ensures
            finder@ == FinderModel::start(accepted(target)),
            finder@.wf(),
    {
        Finder { target, found: Vec::new(), last: None, state: ScanState::Scanning }
    }

    /// A search for the rows that match a pattern given as text. A pattern
    /// that does not compile gives no search, only the reason.
    pub fn search(pattern: &str) -> (started: Result<Finder, PatternError>)
        ensures
            match compiled(pattern@) {
                Ok(lang) => started matches Ok(finder) && finder@ == FinderModel::start(lang)
                    && finder@.wf(),
                Err(message) => started matches Err(error) && error.message@ == message,
            },
    {
        Finder::from_compiled(compile(pattern))
    }

    /// A search for the outcome of compiling a pattern: one that has seen no
    /// row yet where the pattern compiled, else the reason why it did not.
    pub fn from_compiled(result: Result<Regex, PatternError>) -> (started: Result<
        Finder,
        PatternError,
    >)
        ensures
            match result {
                Ok(target) => started matches Ok(finder) && finder@ == FinderModel::start(
                    accepted(target),
                ) && finder@.wf(),
                Err(error) => started matches Err(e) && e == error,
            },
    {
        match result {
            Ok(target) => Ok(Finder::new(target)),
            Err(error) => Err(error),
        }
    }

    /// Hands the next row to the search. Returns whether the row was recorded
    /// as a match.
    pub fn scan(&mut self, row: &Row) -> (hit: bool)
        ensures
            final(self)@ == old(self)@.scan(row@),
            final(self)@.wf(),
            hit == (old(self)@.takes(row.row_number) && fields_match(
                old(self)@.accepted,
                row@.fields,
            )),
    {
        proof {
            use_type_invariant(&*self);
        }
        let fresh = match self.last {
            Some(last) => last < row.row_number,
            None => true,
        };
        if self.state != ScanState::Scanning || !fresh {
            return false;
        }
        let hit = matches_any(&self.target, &row.fields);
        self.last = Some(row.row_number);
        if hit {
            // the list grows outside the search, which stays whole meanwhile
            let mut found: Vec<u64> = Vec::new();
            core::mem::swap(&mut self.found, &mut found);
            found.push(row.row_number);
            self.found = found;
        }
        hit
    }

    /// Marks the search as complete: every row of the file was handed in.
    /// A search that was called off stays called off.
    pub fn finish(&mut self)
        ensures
            final(self)@ == (FinderModel {
                state: if old(self)@.state == ScanState::Scanning {
                    ScanState::Finished
                } else {
                    old(self)@.state
                },
                ..old(self)@
            }),
            final(self)@.wf(),
    {
        proof {
            use_type_invariant(&*self);
        }
        if self.state == ScanState::Scanning {
            self.state = ScanState::Finished;
        }
    }

    /// Calls the search off. Its matches are dropped and it takes no further
    /// rows.
    pub fn terminate(&mut self)
        ensures
            final(self)@ == (FinderModel {
                found: Seq::empty(),
                state: ScanState::Terminated,
                ..old(self)@
            }),
            final(self)@.wf(),
    {
        proof {
            use_type_invariant(&*self);
        }
        self.state = ScanState::Terminated;
        self.found = Vec::new();
    }

    /// Whether the search was called off.
    pub fn terminated(&self) -> (terminated: bool)
        ensures
            terminated == (self@.state == ScanState::Terminated),
    {
        self.state == ScanState::Terminated
    }

    /// How many matches were found so far.
    pub fn count(&self) -> (n: usize)
        ensures
            n == self@.found.len(),
            self@.wf(),
    {
        proof {
            use_type_invariant(self);
        }
        self.found.len()
    }

    /// Whether every row of the file has been scanned.
    pub fn done(&self) -> (done: bool)
        ensures
            done == (self@.state == ScanState::Finished),
    {
        self.state == ScanState::Finished
    }

    /// The matches in positions `from` to `from + num`, as far as they have
    /// been found.
    pub fn get_subset_found(&self, from: usize, num: usize) -> (subset: Vec<u64>)
        ensures
            subset@ == window(self@.found, from as nat, num as nat),
            ascending(subset@),
    {
        proof {
            use_type_invariant(self);
        }
        cut(&self.found, from, num)
    }
}

/// The numbers in positions `from` to `from + num` of a list, as far as the
/// list reaches.
pub fn cut(found: &Vec<u64>, from: usize, num: usize) -> (subset: Vec<u64>)
    ensures
        subset@ == window(found@, from as nat, num as nat),
{
    let len = found.len();
    let start = if from <= len {
        from
    } else {
        len
    };
    let end = if num <= len - start {
        start + num
    } else {
        len
    };
    let mut subset: Vec<u64> = Vec::new();
    let mut i: usize = start;
    while i < end
        invariant
            start <= i <= end <= found.len(),
            subset@ == found@.subrange(start as int, i as int),
        decreases end - i,
    {
        subset.push(found[i]);
        assert(subset@ =~= found@.subrange(start as int, i + 1));
        i += 1;
    }
    subset
}

} // verus!
