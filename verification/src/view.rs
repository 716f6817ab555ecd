//! The view coordinator: the visible window, its filters and the cursor.
//!
//! The coordinator never reads the file. Where a change of the window calls
//! for other rows, it answers with a [`Fetch`] that says which rows to read;
//! the caller reads them and hands them to [`RowsView::load`], or hands the
//! outcome of the read to [`RowsView::try_load`]. Until then the rows on
//! display stay, with the cursor on them.

use crate::columns::{select_columns, ColumnsFilter, ColumnsModel};
use crate::find::{ascending, cut, window, Finder};
use crate::input::Control;
use crate::pattern::{compile, compiled, meaning, PatternError, PatternModel};
use crate::row::{project_rows, Row, RowModel};
use regex::Regex;
use vstd::prelude::*;

verus! {

/// What a row filter is: the matches that the search had found when the
/// snapshot was taken, their number, and those of them that fall into the
/// window.
pub struct FilterModel {
    /// The numbers of all the matching rows found.
    pub found: Seq<u64>,
    /// The matching rows of the window.
    pub indices: Seq<u64>,
    /// How many matching rows were found.
    pub total: usize,
}

impl FilterModel {
    /// The same snapshot, cut to another window.
    pub open spec fn cut(self, rows_from: u64, num_rows: u64) -> FilterModel {
        FilterModel { indices: window(self.found, rows_from as nat, num_rows as nat), ..self }
    }
}

/// A row filter, if there is one, cut to a window.
pub open spec fn cut_filter(filter: Option<FilterModel>, rows_from: u64, num_rows: u64) -> Option<
    FilterModel,
> {
    match filter {
        Some(filter) => Some(filter.cut(rows_from, num_rows)),
        None => None,
    }
}

/// A snapshot of a search, with the cut of it that falls into the window.
/// The matching rows are held in ascending order.
pub struct RowsFilter {
    found: Vec<u64>,
    indices: Vec<u64>,
    total: usize,
}

impl View for RowsFilter {
    type V = FilterModel;

    closed spec fn view(&self) -> FilterModel {
        FilterModel { found: self.found@, indices: self.indices@, total: self.total }
    }
}

impl DeepView for RowsFilter {
    type V = FilterModel;

    open spec fn deep_view(&self) -> FilterModel {
        self@
    }
}

/// The snapshot that a window takes of a list of matches.
pub open spec fn snapshot(found: Seq<u64>, rows_from: u64, num_rows: u64) -> FilterModel
    recommends
        found.len() <= usize::MAX,
{
    FilterModel {
        found,
        indices: window(found, rows_from as nat, num_rows as nat),
        total: found.len() as usize,
    }
}

fn to_index(n: u64) -> (i: usize)
    ensures
        i == if n <= usize::MAX {
            n as int
        } else {
            usize::MAX as int
        },
{
    if n > usize::MAX as u64 {
        usize::MAX
    } else {
        n as usize
    }
}

impl RowsFilter {
    #[verifier::type_invariant]
    closed spec fn inv(&self) -> bool {
        &&& ascending(self.found@)
        &&& ascending(self.indices@)
        &&& self.total == self.found@.len()
    }

    /// Takes a snapshot of a search: its matches and their number, and the
    /// matches in positions `rows_from` to `rows_from + num_rows`.
    pub fn new(finder: &Finder, rows_from: u64, num_rows: u64) -> (filter: RowsFilter)
        ensures
            filter@ == snapshot(finder@.found, rows_from, num_rows),
            ascending(filter@.found),
            ascending(filter@.indices),
    {
        let total = finder.count();
        let found = finder.get_subset_found(0, total);
        assert(found@ =~= finder@.found);
        let indices = cut(&found, to_index(rows_from), to_index(num_rows));
        RowsFilter { found, indices, total }
    }

    /// The same snapshot with the cut that falls into another window.
    pub fn cut(self, rows_from: u64, num_rows: u64) -> (filter: RowsFilter)
        ensures
            filter@ == self@.cut(rows_from, num_rows),
    {
        proof {
            use_type_invariant(&self);
        }
        let indices = cut(&self.found, to_index(rows_from), to_index(num_rows));
        RowsFilter { found: self.found, indices, total: self.total }
    }

    /// The matching rows of the window.
    pub fn indices(&self) -> (indices: &Vec<u64>)
        ensures
            indices@ == self@.indices,
            ascending(indices@),
    {
        proof {
            use_type_invariant(self);
        }
        &self.indices
    }

    /// The number of matches at the time of the snapshot.
    pub fn total(&self) -> (total: usize)
        ensures
            total == self@.total,
    {
        self.total
    }
}

/// What a request for rows is.
pub enum FetchModel {
    Range { rows_from: u64, num_rows: u64 },
    Indices { indices: Seq<u64> },
}

/// A request for rows, to be read from the file by the caller.
#[derive(Debug, PartialEq, Eq)]
pub enum Fetch {
    /// The rows numbered `rows_from` up to, not including,
    /// `rows_from + num_rows`.
    Range { rows_from: u64, num_rows: u64 },
    /// The rows with these numbers, in this order.
    Indices { indices: Vec<u64> },
}

impl View for Fetch {
    type V = FetchModel;

    open spec fn view(&self) -> FetchModel {
        match self {
            Fetch::Range { rows_from, num_rows } => FetchModel::Range {
                rows_from: *rows_from,
                num_rows: *num_rows,
            },
            Fetch::Indices { indices } => FetchModel::Indices { indices: indices@ },
        }
    }
}

impl DeepView for Fetch {
    type V = FetchModel;

    open spec fn deep_view(&self) -> FetchModel {
        self@
    }
}

/// The offset of the last row of a batch of `len` rows within the batch; zero
/// for an empty batch.
pub open spec fn last_offset(len: nat) -> u64 {
    if len == 0 {
        0
    } else if len - 1 <= u64::MAX {
        (len - 1) as u64
    } else {
        u64::MAX
    }
}

/// What the view coordinator is.
pub struct ViewModel {
    /// The column names of the file.
    pub headers: Seq<Seq<char>>,
    /// The number of rows of the file, once it is known exactly.
    pub total: Option<usize>,
    /// An estimate of the number of rows of the file.
    pub total_approx: Option<usize>,
    /// The rows on display.
    pub rows: Seq<RowModel>,
    /// The height of the window.
    pub num_rows: u64,
    /// The position of the first row of the window.
    pub rows_from: u64,
    pub filter: Option<FilterModel>,
    pub columns_filter: Option<ColumnsModel>,
    /// The cursor, as an offset into the rows on display.
    pub selected: Option<u64>,
    /// How long the last read took, in microseconds.
    pub elapsed: Option<u128>,
    /// Whether the cursor is to go onto the last of the rows that are read
    /// next.
    pub bottom_pending: bool,
}

impl ViewModel {
    /// The view of a file that has just been opened.
    pub open spec fn open(headers: Seq<Seq<char>>, rows: Seq<RowModel>, num_rows: u64) -> ViewModel {
        ViewModel {
            headers,
            total: None,
            total_approx: None,
            rows,
            num_rows,
            rows_from: 0,
            filter: None,
            columns_filter: None,
            selected: Some(0),
            elapsed: None,
            bottom_pending: false,
        }
    }

    /// The column names on display.
    pub open spec fn shown_headers(self) -> Seq<Seq<char>> {
        match self.columns_filter {
            Some(columns) => columns.filtered_headers,
            None => self.headers,
        }
    }

    /// The number of rows that the window moves over: the match count under
    /// a row filter, else the exact size of the file, else the estimate.
    pub open spec fn get_total(self) -> Option<usize> {
        match self.filter {
            Some(filter) => Some(filter.total),
            None => match self.total {
                Some(n) => Some(n),
                None => self.total_approx,
            },
        }
    }

    /// The last position at which the window is still full, where the total
    /// is known.
    pub open spec fn bottom_rows_from(self) -> Option<u64> {
        match self.get_total() {
            Some(total) => Some(
                if total >= self.num_rows {
                    (total - self.num_rows) as u64
                } else {
                    0
                },
            ),
            None => None,
        }
    }

    /// A window position, brought back to the bottom where it lies beyond.
    pub open spec fn clamp_rows_from(self, rows_from: u64) -> u64 {
        match self.bottom_rows_from() {
            Some(bottom) => if rows_from <= bottom {
                rows_from
            } else {
                bottom
            },
            None => rows_from,
        }
    }

    /// The rows that the window shows: those of the row filter where one is
    /// set, else the range that starts at the window position.
    pub open spec fn request(self) -> FetchModel {
        match self.filter {
            Some(filter) => FetchModel::Indices { indices: filter.indices },
            None => FetchModel::Range { rows_from: self.rows_from, num_rows: self.num_rows },
        }
    }

    /// Whether the row filter, if there is one, is cut to the window as it
    /// stands.
    pub open spec fn filter_fits(self) -> bool {
        self.filter is Some ==> self.filter->0.indices == window(
            self.filter->0.found,
            self.rows_from as nat,
            self.num_rows as nat,
        )
    }

    /// Whether the window lies within the content: no further down than the
    /// last position at which it is full, where the total is known.
    pub open spec fn window_in_content(self) -> bool {
        self.bottom_rows_from() is Some ==> self.rows_from <= self.bottom_rows_from()->0
    }

    /// Whether the cursor, if there is one, lies on a row on display, or at
    /// offset zero where no rows are on display.
    pub open spec fn cursor_in_rows(self) -> bool {
        self.selected is Some ==> self.selected->0 <= last_offset(self.rows.len())
    }

    /// The view after it was told what is known of the size of the file.
    pub open spec fn update_totals(self, total: Option<usize>, total_approx: Option<usize>) -> ViewModel {
        ViewModel { total, total_approx, ..self }
    }

    /// The view with the cursor at the given offset, or on the last row where
    /// the offset lies beyond it. Nothing is left pending for the cursor.
    pub open spec fn set_selected(self, selected: u64) -> ViewModel {
        let last = last_offset(self.rows.len());
        ViewModel {
            selected: Some(
                if selected <= last {
                    selected
                } else {
                    last
                },
            ),
            bottom_pending: false,
            ..self
        }
    }

    /// The view without a cursor.
    pub open spec fn reset_selected(self) -> ViewModel {
        ViewModel { selected: None, bottom_pending: false, ..self }
    }

    /// The view with the cursor one row further down, if there is a cursor and
    /// a row to go to.
    pub open spec fn increase_selected(self) -> ViewModel {
        match self.selected {
            Some(i) => self.set_selected(i.saturating_add(1)),
            None => self,
        }
    }

    /// The view with the cursor one row further up, if there is a cursor and a
    /// row to go to.
    pub open spec fn decrease_selected(self) -> ViewModel {
        match self.selected {
            Some(i) => self.set_selected(i.saturating_sub(1)),
            None => self,
        }
    }

    /// The view with the cursor on the first row.
    pub open spec fn select_top(self) -> ViewModel {
        self.set_selected(0)
    }

    /// The view with the cursor on the last row.
    pub open spec fn select_bottom(self) -> ViewModel {
        self.set_selected(last_offset(self.rows.len()))
    }

    /// The position of the cursor in the file or in the list of matches.
    pub open spec fn selected_offset(self) -> Option<u64> {
        match self.selected {
            Some(i) => Some(i.saturating_add(self.rows_from)),
            None => None,
        }
    }

    /// Whether the row at this position lies within the window.
    pub open spec fn in_view(self, row_index: u64) -> bool {
        self.rows_from <= row_index < self.rows_from + self.num_rows
    }

    /// The view after rows were read for it: the rows are cut to the columns
    /// of the column filter, and the cursor is brought back onto them, or
    /// onto the last of them where that was left pending.
    pub open spec fn load(self, rows: Seq<RowModel>, elapsed: u128) -> ViewModel {
        let shown = match self.columns_filter {
            Some(columns) => project_rows(rows, columns.indices),
            None => rows,
        };
        let loaded = ViewModel {
            rows: shown,
            elapsed: Some(elapsed),
            bottom_pending: false,
            ..self
        };
        match self.selected {
            Some(i) => if self.bottom_pending {
                loaded.select_bottom()
            } else {
                loaded.set_selected(i)
            },
            None => loaded,
        }
    }

    /// Moves the window. The position is clamped to the bottom; a fetch is
    /// asked for only where the position changes. The row filter is cut to
    /// the window where it then stands, and the fetch asks for that cut.
    pub open spec fn set_rows_from(self, rows_from: u64) -> (ViewModel, Option<FetchModel>) {
        let clamped = self.clamp_rows_from(rows_from);
        if clamped == self.rows_from {
            (self, None)
        } else {
            let moved = ViewModel {
                rows_from: clamped,
                filter: cut_filter(self.filter, clamped, self.num_rows),
                bottom_pending: false,
                ..self
            };
            (moved, Some(moved.request()))
        }
    }

    /// Resizes the window. A fetch is asked for only where the height
    /// changes. The row filter is cut to the window of the new height, and
    /// the fetch asks for that cut.
    pub open spec fn set_num_rows(self, num_rows: u64) -> (ViewModel, Option<FetchModel>) {
        if num_rows == self.num_rows {
            (self, None)
        } else {
            let resized = ViewModel {
                num_rows,
                filter: cut_filter(self.filter, self.rows_from, num_rows),
                bottom_pending: false,
                ..self
            };
            (resized, Some(resized.request()))
        }
    }

    /// Puts a new snapshot of the search in place. A fetch is asked for
    /// unless the window shows the same matches as before.
    pub open spec fn set_filter(self, found: Seq<u64>) -> (ViewModel, Option<FetchModel>) {
        let filter = snapshot(found, self.rows_from, self.num_rows);
        let filtered = ViewModel { filter: Some(filter), ..self };
        if self.filter is Some && self.filter->0.indices == filter.indices {
            (filtered, None)
        } else {
            let asking = ViewModel { bottom_pending: false, ..filtered };
            (asking, Some(asking.request()))
        }
    }

    /// Drops the row filter. A fetch is asked for only where there was one.
    pub open spec fn reset_filter(self) -> (ViewModel, Option<FetchModel>) {
        if self.filter is None {
            (self, None)
        } else {
            let cleared = ViewModel { filter: None, bottom_pending: false, ..self };
            (cleared, Some(cleared.request()))
        }
    }

    /// Puts a column filter in place, made from the headers of the file, and
    /// asks for the rows of the window again.
    pub open spec fn set_columns_filter(self, pattern: PatternModel) -> (ViewModel, FetchModel) {
        let narrowed = ViewModel {
            columns_filter: Some(select_columns(pattern, self.headers)),
            bottom_pending: false,
            ..self
        };
        (narrowed, narrowed.request())
    }

    /// Drops the column filter, and asks for the rows of the window again.
    pub open spec fn reset_columns_filter(self) -> (ViewModel, FetchModel) {
        let widened = ViewModel { columns_filter: None, bottom_pending: false, ..self };
        (widened, widened.request())
    }

    /// The cursor after the window was scrolled to its top, or to a line: on
    /// the first row, if there is a cursor.
    pub open spec fn cursor_to_top(self) -> ViewModel {
        if self.selected is Some {
            self.select_top()
        } else {
            self
        }
    }

    /// The cursor after the window was scrolled to the bottom: on the last
    /// row, if there is a cursor. Where the rows are still to be read, the
    /// cursor stays where it is, and its move is left pending: loading
    /// brings it onto the last of the rows read.
    pub open spec fn cursor_to_bottom(self, awaiting_rows: bool) -> ViewModel {
        if self.selected is None {
            self
        } else if awaiting_rows {
            ViewModel { bottom_pending: true, ..self }
        } else {
            self.select_bottom()
        }
    }

    /// The view after a navigation directive, and the rows to read for it,
    /// if any.
    pub open spec fn handle_control(self, control: Control) -> (ViewModel, Option<FetchModel>) {
        match control {
            Control::ScrollDown => {
                if self.selected is Some && self.selected->0 != self.num_rows.saturating_sub(1) {
                    (self.increase_selected(), None)
                } else {
                    self.set_rows_from(self.rows_from.saturating_add(1))
                }
            },
            Control::ScrollUp => {
                if self.selected is Some && self.selected->0 != 0 {
                    (self.decrease_selected(), None)
                } else {
                    self.set_rows_from(self.rows_from.saturating_sub(1))
                }
            },
            Control::ScrollPageDown => {
                let (moved, fetch) = self.set_rows_from(
                    self.rows_from.saturating_add(self.num_rows),
                );
                (moved.cursor_to_top(), fetch)
            },
            Control::ScrollPageUp => {
                let (moved, fetch) = self.set_rows_from(
                    self.rows_from.saturating_sub(self.num_rows),
                );
                (moved.cursor_to_top(), fetch)
            },
            Control::ScrollTop => {
                let (moved, fetch) = self.set_rows_from(0);
                (moved.cursor_to_top(), fetch)
            },
            Control::ScrollBottom => {
                let (moved, fetch) = match self.bottom_rows_from() {
                    Some(bottom) => self.set_rows_from(bottom),
                    None => (self, None),
                };
                (moved.cursor_to_bottom(fetch is Some), fetch)
            },
            Control::ScrollTo(n) => {
                let (moved, fetch) = self.set_rows_from(n.saturating_sub(1) as u64);
                (moved.cursor_to_top(), fetch)
            },
            _ => (self, None),
        }
    }
}

/// One thing that happens to the view while the user moves about: a
/// navigation directive is handled, or rows that were read are loaded.
pub enum Step {
    Handle(Control),
    Load(Seq<RowModel>, u128),
}

impl ViewModel {
    /// The view after one step.
    pub open spec fn step(self, step: Step) -> ViewModel {
        match step {
            Step::Handle(control) => self.handle_control(control).0,
            Step::Load(rows, elapsed) => self.load(rows, elapsed),
        }
    }

    /// The view after a series of steps, in any order: a directive need not
    /// be followed by a load, as where the read for it failed.
    pub open spec fn steps(self, steps: Seq<Step>) -> ViewModel
        decreases steps.len(),
    {
        if steps.len() == 0 {
            self
        } else {
            self.steps(steps.drop_last()).step(steps.last())
        }
    }
}

/// Moving the window to the position where it already stands changes nothing
/// and asks for no rows, provided that position does not lie beyond the
/// bottom.
pub proof fn lemma_set_rows_from_same(view: ViewModel)
    requires
        view.clamp_rows_from(view.rows_from) == view.rows_from,
    ensures
        view.set_rows_from(view.rows_from) == (view, None::<FetchModel>),
{
}

/// Once the window was moved, moving it again to where it now stands changes
/// nothing and asks for no rows.
pub proof fn lemma_set_rows_from_idempotent(view: ViewModel, rows_from: u64)
    ensures
        ({
            let moved = view.set_rows_from(rows_from).0;
            moved.set_rows_from(moved.rows_from) == (moved, None::<FetchModel>)
        }),
{
}

/// The window never moves past the content. Asked to go beyond the last
/// position at which it is full, it stops there; where the total is smaller
/// than the window, that position is zero. Below the bottom, and where no
/// total is known, it goes where it is asked to go.
pub proof fn lemma_set_rows_from_clamps(view: ViewModel, rows_from: u64)
    ensures
        ({
            let moved = view.set_rows_from(rows_from).0;
            &&& moved.window_in_content()
            &&& moved.rows_from <= rows_from
            &&& view.get_total() is None ==> moved.rows_from == rows_from
            &&& view.get_total() is Some ==> {
                let total = view.get_total()->0;
                let bottom = if total >= view.num_rows {
                    total - view.num_rows
                } else {
                    0
                };
                &&& rows_from > bottom ==> moved.rows_from == bottom
                &&& rows_from <= bottom ==> moved.rows_from == rows_from
            }
        }),
{
}

/// A navigation directive touches nothing but the position of the window,
/// the cut of the row filter that goes with it, and the cursor. Where it
/// moves the window, the window ends up within the content and the row
/// filter is cut to it; where it does not, the row filter stays as it is.
pub proof fn lemma_handle_control_frame(view: ViewModel, control: Control)
    ensures
        ({
            let handled = view.handle_control(control).0;
            &&& handled == ViewModel {
                rows_from: handled.rows_from,
                filter: handled.filter,
                selected: handled.selected,
                bottom_pending: handled.bottom_pending,
                ..view
            }
            &&& handled.rows_from == view.rows_from ==> handled.filter == view.filter
            &&& handled.rows_from != view.rows_from ==> handled.window_in_content()
                && handled.filter == cut_filter(view.filter, handled.rows_from, view.num_rows)
        }),
{
    let target: u64 = match control {
        Control::ScrollDown => view.rows_from.saturating_add(1),
        Control::ScrollUp => view.rows_from.saturating_sub(1),
        Control::ScrollPageDown => view.rows_from.saturating_add(view.num_rows),
        Control::ScrollPageUp => view.rows_from.saturating_sub(view.num_rows),
        Control::ScrollBottom => match view.bottom_rows_from() {
            Some(bottom) => bottom,
            None => view.rows_from,
        },
        Control::ScrollTo(n) => n.saturating_sub(1) as u64,
        _ => 0,
    };
    lemma_set_rows_from_clamps(view, target);
}

/// A step changes neither the height of the window nor what is known of the
/// total, and it keeps a window that lies within the content within it.
pub proof fn lemma_step_keeps_window_in_content(view: ViewModel, step: Step)
    ensures
        view.step(step).get_total() == view.get_total(),
        view.step(step).num_rows == view.num_rows,
        view.window_in_content() ==> view.step(step).window_in_content(),
{
    if let Step::Handle(control) = step {
        lemma_handle_control_frame(view, control);
    }
}

/// A window that lies within the content still does so after any series of
/// steps, as long as the total stays what it is.
pub proof fn lemma_window_stays_in_content(view: ViewModel, steps: Seq<Step>)
    requires
        view.window_in_content(),
    ensures
        view.steps(steps).window_in_content(),
        view.steps(steps).get_total() == view.get_total(),
        view.steps(steps).num_rows == view.num_rows,
    decreases steps.len(),
{
    if steps.len() > 0 {
        lemma_window_stays_in_content(view, steps.drop_last());
        lemma_step_keeps_window_in_content(view.steps(steps.drop_last()), steps.last());
    }
}

/// Loading rows brings the cursor onto them, wherever it was, and leaves
/// nothing pending.
pub proof fn lemma_load_cursor_in_rows(view: ViewModel, rows: Seq<RowModel>, elapsed: u128)
    ensures
        view.load(rows, elapsed).cursor_in_rows(),
        !view.load(rows, elapsed).bottom_pending,
{
}

/// A navigation directive keeps a cursor that lies on the rows on display on
/// them, whether or not it asks for rows.
pub proof fn lemma_handle_control_cursor_in_rows(view: ViewModel, control: Control)
    requires
        view.cursor_in_rows(),
    ensures
        view.handle_control(control).0.cursor_in_rows(),
        view.handle_control(control).0.rows == view.rows,
{
    lemma_handle_control_frame(view, control);
}

/// A cursor that lies on the rows on display still does so after any series
/// of steps: after every directive, before its rows are loaded and after,
/// and also where they never are. With rows on display, its offset is
/// smaller than their number.
pub proof fn lemma_cursor_stays_in_rows(view: ViewModel, steps: Seq<Step>)
    requires
        view.cursor_in_rows(),
    ensures
        view.steps(steps).cursor_in_rows(),
        ({
            let after = view.steps(steps);
            after.selected is Some && after.rows.len() > 0 ==> after.selected->0
                < after.rows.len()
        }),
    decreases steps.len(),
{
    if steps.len() > 0 {
        let before = view.steps(steps.drop_last());
        lemma_cursor_stays_in_rows(view, steps.drop_last());
        match steps.last() {
            Step::Handle(control) => lemma_handle_control_cursor_in_rows(before, control),
            Step::Load(rows, elapsed) => lemma_load_cursor_in_rows(before, rows, elapsed),
        }
    }
}

/// Under a row filter that is cut to the window, the rows that the view asks
/// for are the matches in positions `rows_from` to `rows_from + num_rows` of
/// the snapshot.
pub proof fn lemma_request_follows_window(view: ViewModel)
    requires
        view.filter is Some,
        view.filter_fits(),
    ensures
        view.request() == (FetchModel::Indices {
            indices: window(view.filter->0.found, view.rows_from as nat, view.num_rows as nat),
        }),
{
}

/// A resize cuts the row filter to the window of the new height: the rows
/// asked for are the matches of the snapshot that fall into that window.
pub proof fn lemma_set_num_rows_cuts_filter(view: ViewModel, num_rows: u64)
    requires
        view.filter is Some,
        num_rows != view.num_rows,
    ensures
        view.set_num_rows(num_rows).0.filter_fits(),
        view.set_num_rows(num_rows).0.filter->0.found == view.filter->0.found,
        view.set_num_rows(num_rows).1 == Some(
            FetchModel::Indices {
                indices: window(view.filter->0.found, view.rows_from as nat, num_rows as nat),
            },
        ),
{
}

/// A move cuts the row filter to the window where it then stands: the rows
/// asked for are the matches of the snapshot that fall into that window.
pub proof fn lemma_set_rows_from_cuts_filter(view: ViewModel, rows_from: u64)
    requires
        view.filter is Some,
        view.clamp_rows_from(rows_from) != view.rows_from,
    ensures
        view.set_rows_from(rows_from).0.filter_fits(),
        view.set_rows_from(rows_from).0.filter->0.found == view.filter->0.found,
        view.set_rows_from(rows_from).1 == Some(
            FetchModel::Indices {
                indices: window(
                    view.filter->0.found,
                    view.clamp_rows_from(rows_from) as nat,
                    view.num_rows as nat,
                ),
            },
        ),
{
}

/// A new snapshot is cut to the window as it stands.
pub proof fn lemma_set_filter_fits(view: ViewModel, found: Seq<u64>)
    ensures
        view.set_filter(found).0.filter_fits(),
{
}

/// A row filter that is cut to the window stays so through any series of
/// steps, with the snapshot that it holds.
pub proof fn lemma_filter_stays_fit(view: ViewModel, steps: Seq<Step>)
    requires
        view.filter_fits(),
    ensures
        view.steps(steps).filter_fits(),
        view.filter is Some ==> view.steps(steps).filter is Some && view.steps(
            steps,
        ).filter->0.found == view.filter->0.found,
    decreases steps.len(),
{
    if steps.len() > 0 {
        lemma_filter_stays_fit(view, steps.drop_last());
        if let Step::Handle(control) = steps.last() {
            lemma_handle_control_frame(view.steps(steps.drop_last()), control);
        }
    }
}

/// The view coordinator.
pub struct RowsView {
    headers: Vec<String>,
    total: Option<usize>,
    total_approx: Option<usize>,
    rows: Vec<Row>,
    num_rows: u64,
    rows_from: u64,
    filter: Option<RowsFilter>,
    columns_filter: Option<ColumnsFilter>,
    selected: Option<u64>,
    elapsed: Option<u128>,
    bottom_pending: bool,
}

impl View for RowsView {
    type V = ViewModel;

    closed spec fn view(&self) -> ViewModel {
        ViewModel {
            headers: self.headers.deep_view(),
            total: self.total,
            total_approx: self.total_approx,
            rows: self.rows.deep_view(),
            num_rows: self.num_rows,
            rows_from: self.rows_from,
            filter: self.filter.deep_view(),
            columns_filter: self.columns_filter.deep_view(),
            selected: self.selected,
            elapsed: self.elapsed,
            bottom_pending: self.bottom_pending,
        }
    }
}

fn copy_indices(indices: &Vec<u64>) -> (copy: Vec<u64>)
    ensures
        copy@ == indices@,
{
    let mut copy: Vec<u64> = Vec::new();
    let mut i: usize = 0;
    while i < indices.len()
        invariant
            i <= indices.len(),
            copy@ == indices@.take(i as int),
        decreases indices.len() - i,
    {
        copy.push(indices[i]);
        assert(copy@ =~= indices@.take(i + 1));
        i += 1;
    }
    assert(indices@.take(i as int) =~= indices@);
    copy
}

fn same_indices(a: &Vec<u64>, b: &Vec<u64>) -> (same: bool)
    ensures
        same == (a@ == b@),
{
    if a.len() != b.len() {
        return false;
    }
    let mut i: usize = 0;
    while i < a.len()
        invariant
            i <= a.len(),
            a.len() == b.len(),
            forall|k: int| 0 <= k < i ==> a[k] == b[k],
        decreases a.len() - i,
    {
        if a[i] != b[i] {
            return false;
        }
        i += 1;
    }
    assert(a@ =~= b@);
    true
}

impl RowsView {
    /// The view of a file that has just been opened: the window at the top
    /// with the first rows in it, the cursor on the first row, no filters.
    pub fn new(headers: Vec<String>, rows: Vec<Row>, num_rows: u64) -> (view: RowsView)
        ensures
            view@ == ViewModel::open(headers.deep_view(), rows.deep_view(), num_rows),
            view@.cursor_in_rows(),
            view@.window_in_content(),
            view@.filter_fits(),
    {
        RowsView {
            headers,
            total: None,
            total_approx: None,
            rows,
            num_rows,
            rows_from: 0,
            filter: None,
            columns_filter: None,
            selected: Some(0),
            elapsed: None,
            bottom_pending: false,
        }
    }

    /// Tells the view how many rows the file has, as far as that is known.
    pub fn update_totals(&mut self, total: Option<usize>, total_approx: Option<usize>)
        ensures
            final(self)@ == old(self)@.update_totals(total, total_approx),
    {
        self.total = total;
        self.total_approx = total_approx;
    }

    /// The column names on display: those of the column filter where one is
    /// set, else those of the file.
    pub fn headers(&self) -> (headers: &Vec<String>)
        ensures
            headers.deep_view() == self@.shown_headers(),
    {
        if let Some(columns_filter) = &self.columns_filter {
            columns_filter.filtered_headers()
        } else {
            &self.headers
        }
    }

    /// The rows on display.
    pub fn rows(&self) -> (rows: &Vec<Row>)
        ensures
            rows.deep_view() == self@.rows,
    {
        &self.rows
    }

    /// The height of the window.
    pub fn num_rows(&self) -> (num_rows: u64)
        ensures
            num_rows == self@.num_rows,
    {
        self.num_rows
    }

    /// The position of the first row of the window.
    pub fn rows_from(&self) -> (rows_from: u64)
        ensures
            rows_from == self@.rows_from,
    {
        self.rows_from
    }

    /// The cursor, as an offset into the rows on display.
    pub fn selected(&self) -> (selected: Option<u64>)
        ensures
            selected == self@.selected,
    {
        self.selected
    }

    /// The position of the cursor in the file, or in the list of matches
    /// under a row filter: its offset plus the position of the window.
    pub fn selected_offset(&self) -> (offset: Option<u64>)
        ensures
            offset == self@.selected_offset(),
    {
        match self.selected {
            Some(i) => Some(i.saturating_add(self.rows_from)),
            None => None,
        }
    }

    /// How long the last read took, in microseconds.
    pub fn elapsed(&self) -> (elapsed: Option<u128>)
        ensures
            elapsed == self@.elapsed,
    {
        self.elapsed
    }

    /// The number of rows of the file, if the view was told it exactly.
    pub fn get_total_line_numbers(&self) -> (total: Option<usize>)
        ensures
            total == self@.total,
    {
        self.total
    }

    /// The estimate of the number of rows that the view was told last.
    pub fn get_total_line_numbers_approx(&self) -> (total: Option<usize>)
        ensures
            total == self@.total_approx,
    {
        self.total_approx
    }

    /// Whether a row filter is set.
    pub fn is_filter(&self) -> (filtered: bool)
        ensures
            filtered == self@.filter is Some,
    {
        self.filter.is_some()
    }

    /// The column filter, if one is set.
    pub fn columns_filter(&self) -> (columns_filter: Option<&ColumnsFilter>)
        ensures
            columns_filter.deep_view() == self@.columns_filter,
    {
        self.columns_filter.as_ref()
    }

    /// Whether the row at this position lies within the window.
    pub fn in_view(&self, row_index: u64) -> (inside: bool)
        ensures
            inside == self@.in_view(row_index),
    {
        row_index >= self.rows_from && row_index - self.rows_from < self.num_rows
    }

    /// The number of rows that the window moves over.
    pub fn get_total(&self) -> (total: Option<usize>)
        ensures
            total == self@.get_total(),
    {
        if let Some(filter) = &self.filter {
            Some(filter.total)
        } else if let Some(n) = self.total {
            Some(n)
        } else {
            self.total_approx
        }
    }

    /// The last position at which the window is still full.
    pub fn bottom_rows_from(&self) -> (bottom: Option<u64>)
        ensures
            bottom == self@.bottom_rows_from(),
    {
        match self.get_total() {
            Some(total) => Some((total as u64).saturating_sub(self.num_rows)),
            None => None,
        }
    }

    /// The rows that the window shows at present.
    pub fn fetch(&self) -> (fetch: Fetch)
        ensures
            fetch@ == self@.request(),
    {
        match &self.filter {
            Some(filter) => Fetch::Indices { indices: copy_indices(&filter.indices) },
            None => Fetch::Range { rows_from: self.rows_from, num_rows: self.num_rows },
        }
    }

    /// Every row cut to the columns at the given positions.
    pub fn subset_columns(rows: &Vec<Row>, indices: &[usize]) -> (out: Vec<Row>)
        ensures
            out.deep_view() == project_rows(rows.deep_view(), indices@),
    {
        let mut out: Vec<Row> = Vec::new();
        let mut j: usize = 0;
        while j < rows.len()
            invariant
                j <= rows.len(),
                out.len() == j,
                forall|k: int| 0 <= k < j ==> (#[trigger] out[k])@ == rows[k]@.subset(indices@),
            decreases rows.len() - j,
        {
            out.push(rows[j].subset(indices));
            j += 1;
        }
        assert(out.deep_view() =~= project_rows(rows.deep_view(), indices@));
        out
    }

    /// Takes the rows that were read for the last fetch, together with the
    /// time that reading them took. The cursor ends up on the rows: where it
    /// was, or on the last row where it was beyond, or where a jump to the
    /// bottom was left pending.
    pub fn load(&mut self, rows: Vec<Row>, elapsed: u128)
        ensures
            final(self)@ == old(self)@.load(rows.deep_view(), elapsed),
            final(self)@.cursor_in_rows(),
    {
        let shown = match &self.columns_filter {
            Some(columns_filter) => Self::subset_columns(&rows, columns_filter.indices().as_slice()),
            None => rows,
        };
        let to_bottom = self.bottom_pending;
        self.rows = shown;
        self.elapsed = Some(elapsed);
        if let Some(i) = self.selected {
            if to_bottom {
                self.select_bottom();
            } else {
                self.set_selected(i);
            }
        }
        self.bottom_pending = false;
    }

    /// Takes the outcome of the read for the last fetch. Where the read
    /// failed, the view shows no rows, the cursor goes to offset zero, and
    /// the reason is handed back for the caller to report.
    pub fn try_load(&mut self, read: Result<Vec<Row>, String>, elapsed: u128) -> (report: Option<
        String,
    >)
        ensures
            match read {
                Ok(rows) => final(self)@ == old(self)@.load(rows.deep_view(), elapsed)
                    && report is None,
                Err(reason) => final(self)@ == old(self)@.load(Seq::empty(), elapsed)
                    && report == Some(reason),
            },
            final(self)@.cursor_in_rows(),
    {
        match read {
            Ok(rows) => {
                self.load(rows, elapsed);
                None
            },
            Err(reason) => {
                let none: Vec<Row> = Vec::new();
                assert(none.deep_view() =~= Seq::<RowModel>::empty());
                self.load(none, elapsed);
                Some(reason)
            },
        }
    }

    // Cuts the row filter, if there is one, to the window as it stands.
    fn recut(&mut self)
        ensures
            final(self)@ == (ViewModel {
                filter: cut_filter(old(self)@.filter, old(self)@.rows_from, old(self)@.num_rows),
                ..old(self)@
            }),
    {
        let filter = self.filter.take();
        self.filter = match filter {
            Some(filter) => Some(filter.cut(self.rows_from, self.num_rows)),
            None => None,
        };
    }

    /// Resizes the window. The result says which rows to read, unless the
    /// height is what it was: under a row filter, the matches of the
    /// snapshot that fall into the window of the new height.
    pub fn set_num_rows(&mut self, num_rows: u64) -> (fetch: Option<Fetch>)
        ensures
            final(self)@ == old(self)@.set_num_rows(num_rows).0,
            fetch.deep_view() == old(self)@.set_num_rows(num_rows).1,
            old(self)@.filter_fits() ==> final(self)@.filter_fits(),
    {
        if num_rows == self.num_rows {
            return None;
        }
        self.num_rows = num_rows;
        self.bottom_pending = false;
        self.recut();
        Some(self.fetch())
    }

    /// Puts a new snapshot of the search in place, with its match count. The
    /// result says which rows to read, unless the window shows the same
    /// matches as before.
    pub fn set_filter(&mut self, finder: &Finder) -> (fetch: Option<Fetch>)
        ensures
            final(self)@ == old(self)@.set_filter(finder@.found).0,
            fetch.deep_view() == old(self)@.set_filter(finder@.found).1,
            final(self)@.filter_fits(),
    {
        let filter = RowsFilter::new(finder, self.rows_from, self.num_rows);
        let needs_reload = match &self.filter {
            Some(cur_filter) => !same_indices(&cur_filter.indices, &filter.indices),
            None => true,
        };
        self.filter = Some(filter);
        if needs_reload {
            self.bottom_pending = false;
            Some(self.fetch())
        } else {
            None
        }
    }

    /// Drops the row filter. The result says which rows to read, unless no
    /// row filter was set.
    pub fn reset_filter(&mut self) -> (fetch: Option<Fetch>)
        ensures
            final(self)@ == old(self)@.reset_filter().0,
            fetch.deep_view() == old(self)@.reset_filter().1,
    {
        if !self.is_filter() {
            return None;
        }
        self.filter = None;
        self.bottom_pending = false;
        Some(self.fetch())
    }

    /// Puts a column filter for the pattern in place. The result says which
    /// rows to read: the rows on display are always read again.
    pub fn set_columns_filter(&mut self, target: Regex) -> (fetch: Fetch)
        ensures
            final(self)@ == old(self)@.set_columns_filter(meaning(target)).0,
            fetch@ == old(self)@.set_columns_filter(meaning(target)).1,
    {
        self.columns_filter = Some(ColumnsFilter::new(target, self.headers.as_slice()));
        self.bottom_pending = false;
        self.fetch()
    }

    /// Sets the column filter from the outcome of compiling a pattern. A
    /// pattern that did not compile leaves the view as it is, with the
    /// column filter that was in place, and the reason is handed back.
    pub fn try_set_columns_filter(&mut self, result: Result<Regex, PatternError>) -> (fetch:
        Result<Fetch, PatternError>)
        ensures
            match result {
                Ok(target) => {
                    &&& final(self)@ == old(self)@.set_columns_filter(meaning(target)).0
                    &&& fetch matches Ok(f) && f@ == old(self)@.set_columns_filter(
                        meaning(target),
                    ).1
                },
                Err(error) => {
                    &&& final(self)@ == old(self)@
                    &&& fetch matches Err(e) && e == error
                },
            },
    {
        match result {
            Ok(target) => Ok(self.set_columns_filter(target)),
            Err(error) => Err(error),
        }
    }

    /// Sets the column filter from a pattern given as text. Where the
    /// pattern does not compile, the view stays as it is.
    pub fn filter_columns(&mut self, pattern: &str) -> (fetch: Result<Fetch, PatternError>)
        ensures
            match compiled(pattern@) {
                Ok(lang) => {
                    let target = PatternModel { text: pattern@, accepted: lang };
                    &&& final(self)@ == old(self)@.set_columns_filter(target).0
                    &&& fetch matches Ok(f) && f@ == old(self)@.set_columns_filter(target).1
                },
                Err(message) => {
                    &&& final(self)@ == old(self)@
                    &&& fetch matches Err(error) && error.message@ == message
                },
            },
    {
        let result = compile(pattern);
        self.try_set_columns_filter(result)
    }

    /// Drops the column filter. The result says which rows to read: the rows
    /// on display are always read again.
    pub fn reset_columns_filter(&mut self) -> (fetch: Fetch)
        ensures
            final(self)@ == old(self)@.reset_columns_filter().0,
            fetch@ == old(self)@.reset_columns_filter().1,
    {
        self.columns_filter = None;
        self.bottom_pending = false;
        self.fetch()
    }

    /// Moves the window, no further than the bottom where the total is known.
    /// The result says which rows to read, unless the window stays where it
    /// is: under a row filter, the matches of the snapshot that fall into
    /// the window where it then stands.
    pub fn set_rows_from(&mut self, rows_from: u64) -> (fetch: Option<Fetch>)
        ensures
            final(self)@ == old(self)@.set_rows_from(rows_from).0,
            fetch.deep_view() == old(self)@.set_rows_from(rows_from).1,
            old(self)@.filter_fits() ==> final(self)@.filter_fits(),
    {
        let clamped = match self.bottom_rows_from() {
            Some(bottom) => if rows_from <= bottom {
                rows_from
            } else {
                bottom
            },
            None => rows_from,
        };
        if clamped == self.rows_from {
            return None;
        }
        self.rows_from = clamped;
        self.bottom_pending = false;
        self.recut();
        Some(self.fetch())
    }

    fn last_row_offset(&self) -> (last: u64)
        ensures
            last == last_offset(self@.rows.len()),
    {
        (self.rows.len() as u64).saturating_sub(1)
    }

    /// Puts the cursor at the given offset, or on the last row where the
    /// offset lies beyond it.
    pub fn set_selected(&mut self, selected: u64)
        ensures
            final(self)@ == old(self)@.set_selected(selected),
    {
        let last = self.last_row_offset();
        self.selected = Some(
            if selected <= last {
                selected
            } else {
                last
            },
        );
        self.bottom_pending = false;
    }

    /// Takes the cursor away.
    pub fn reset_selected(&mut self)
        ensures
            final(self)@ == old(self)@.reset_selected(),
    {
        self.selected = None;
        self.bottom_pending = false;
    }

    /// Moves the cursor one row down, if there is a cursor and a row to go to.
    pub fn increase_selected(&mut self)
        ensures
            final(self)@ == old(self)@.increase_selected(),
    {
        if let Some(i) = self.selected {
            self.set_selected(i.saturating_add(1));
        }
    }

    /// Moves the cursor one row up, if there is a cursor and a row to go to.
    pub fn decrease_selected(&mut self)
        ensures
            final(self)@ == old(self)@.decrease_selected(),
    {
        if let Some(i) = self.selected {
            self.set_selected(i.saturating_sub(1));
        }
    }

    /// Puts the cursor on the first row.
    pub fn select_top(&mut self)
        ensures
            final(self)@ == old(self)@.select_top(),
    {
        self.set_selected(0);
    }

    /// Puts the cursor on the last row.
    pub fn select_bottom(&mut self)
        ensures
            final(self)@ == old(self)@.select_bottom(),
    {
        let last = self.last_row_offset();
        self.set_selected(last);
    }

    fn increase_rows_from(&mut self, delta: u64) -> (fetch: Option<Fetch>)
        ensures
            final(self)@ == old(self)@.set_rows_from(
                old(self)@.rows_from.saturating_add(delta),
            ).0,
            fetch.deep_view() == old(self)@.set_rows_from(
                old(self)@.rows_from.saturating_add(delta),
            ).1,
    {
        let new_rows_from = self.rows_from.saturating_add(delta);
        self.set_rows_from(new_rows_from)
    }

    fn decrease_rows_from(&mut self, delta: u64) -> (fetch: Option<Fetch>)
        ensures
            final(self)@ == old(self)@.set_rows_from(
                old(self)@.rows_from.saturating_sub(delta),
            ).0,
            fetch.deep_view() == old(self)@.set_rows_from(
                old(self)@.rows_from.saturating_sub(delta),
            ).1,
    {
        let new_rows_from = self.rows_from.saturating_sub(delta);
        self.set_rows_from(new_rows_from)
    }

    fn cursor_to_top(&mut self)
        ensures
            final(self)@ == old(self)@.cursor_to_top(),
    {
        if self.selected.is_some() {
            self.select_top();
        }
    }

    /// Carries out a navigation directive. Where the window moves, the
    /// result says which rows to read; they are then handed to `load`. The
    /// rows on display stay until then, and the cursor stays on them.
    pub fn handle_control(&mut self, control: &Control) -> (fetch: Option<Fetch>)
        ensures
            final(self)@ == old(self)@.handle_control(*control).0,
            fetch.deep_view() == old(self)@.handle_control(*control).1,
            final(self)@.rows == old(self)@.rows,
            old(self)@.cursor_in_rows() ==> final(self)@.cursor_in_rows(),
            old(self)@.filter_fits() ==> final(self)@.filter_fits(),
    {
        proof {
            lemma_handle_control_frame(old(self)@, *control);
        }
        match control {
            Control::ScrollDown => {
                if let Some(i) = self.selected {
                    if i == self.num_rows.saturating_sub(1) {
                        self.increase_rows_from(1)
                    } else {
                        self.increase_selected();
                        None
                    }
                } else {
                    self.increase_rows_from(1)
                }
            },
            Control::ScrollPageDown => {
                let fetch = self.increase_rows_from(self.num_rows);
                self.cursor_to_top();
                fetch
            },
            Control::ScrollUp => {
                if let Some(i) = self.selected {
                    if i == 0 {
                        self.decrease_rows_from(1)
                    } else {
                        self.decrease_selected();
                        None
                    }
                } else {
                    self.decrease_rows_from(1)
                }
            },
            Control::ScrollPageUp => {
                let fetch = self.decrease_rows_from(self.num_rows);
                self.cursor_to_top();
                fetch
            },
            Control::ScrollTop => {
                let fetch = self.set_rows_from(0);
                self.cursor_to_top();
                fetch
            },
            Control::ScrollBottom => {
                let fetch = match self.bottom_rows_from() {
                    Some(bottom) => self.set_rows_from(bottom),
                    None => None,
                };
                if self.selected.is_some() {
                    if fetch.is_some() {
                        self.bottom_pending = true;
                    } else {
                        self.select_bottom();
                    }
                }
                fetch
            },
            Control::ScrollTo(n) => {
                let fetch = self.set_rows_from(n.saturating_sub(1) as u64);
                self.cursor_to_top();
                fetch
            },
            _ => None,
        }
    }
}

} // verus!
