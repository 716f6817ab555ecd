use csvlens::chunk::Chunk;
use csvlens::find::Finder;
use csvlens::input::Control;
use csvlens::row::Row;
use csvlens::view::{Fetch, RowsFilter, RowsView};
use regex::Regex;

// A file in memory, in place of the reader: row `n` holds "id<n>", "name<n>"
// and "hit" or "miss".
struct Table {
    chunk: Chunk,
}

impl Table {
    fn new(rows: u64, hits: &[u64]) -> Table {
        let records = (0..rows)
            .map(|n| {
                let mark = if hits.contains(&n) { "hit" } else { "miss" };
                vec![format!("id{}", n), format!("name{}", n), mark.to_string()]
            })
            .collect();
        Table { chunk: Chunk { first_row: 0, records } }
    }

    fn headers() -> Vec<String> {
        vec!["id".to_string(), "name".to_string(), "mark".to_string()]
    }

    fn read(&self, fetch: &Fetch) -> Vec<Row> {
        match fetch {
            Fetch::Range { rows_from, num_rows } => self.chunk.get_rows(*rows_from, *num_rows),
            Fetch::Indices { indices } => self.chunk.get_rows_for_indices(indices),
        }
    }

    fn open(&self, num_rows: u64) -> RowsView {
        let rows = self.chunk.get_rows(0, num_rows);
        let mut view = RowsView::new(Table::headers(), rows, num_rows);
        view.update_totals(Some(self.chunk.records.len()), None);
        view
    }

    fn handle(&self, view: &mut RowsView, control: Control) -> bool {
        match view.handle_control(&control) {
            Some(fetch) => {
                view.load(self.read(&fetch), 1);
                true
            }
            None => false,
        }
    }

    fn search(&self, pattern: &str) -> Finder {
        let mut finder = Finder::new(Regex::new(pattern).unwrap());
        for row in self.chunk.get_rows(0, u64::MAX) {
            finder.scan(&row);
        }
        finder
    }
}

fn shown(view: &RowsView) -> Vec<u64> {
    view.rows().iter().map(|r| r.row_number).collect()
}

#[test]
fn page_down_through_a_file_of_ten_rows() {
    let table = Table::new(10, &[]);
    let mut view = table.open(5);
    assert_eq!(view.rows_from(), 0);
    assert_eq!(view.selected(), Some(0));
    assert_eq!(shown(&view), vec![0, 1, 2, 3, 4]);

    assert!(table.handle(&mut view, Control::ScrollPageDown));
    assert_eq!(view.rows_from(), 5);
    assert_eq!(shown(&view), vec![5, 6, 7, 8, 9]);
    assert_eq!(view.selected(), Some(0));

    assert!(!table.handle(&mut view, Control::ScrollPageDown));
    assert_eq!(view.rows_from(), 5);
    assert_eq!(shown(&view), vec![5, 6, 7, 8, 9]);
    assert_eq!(view.selected(), Some(0));
}

#[test]
fn a_row_filter_shows_the_matches_of_the_window() {
    let table = Table::new(10, &[1, 4, 8]);
    let mut view = table.open(2);
    let finder = table.search("hit");
    let fetch = view.set_filter(&finder).unwrap();
    assert_eq!(fetch, Fetch::Indices { indices: vec![1, 4] });
    view.load(table.read(&fetch), 3);
    assert_eq!(view.rows_from(), 0);
    assert_eq!(view.num_rows(), 2);
    assert_eq!(shown(&view), vec![1, 4]);
    assert_eq!(view.get_total(), Some(3));
    assert!(view.is_filter());
}

#[test]
fn a_new_view_stands_at_the_top() {
    let table = Table::new(3, &[]);
    let view = RowsView::new(Table::headers(), table.chunk.get_rows(0, 5), 5);
    assert_eq!(view.rows_from(), 0);
    assert_eq!(view.num_rows(), 5);
    assert_eq!(view.selected(), Some(0));
    assert_eq!(view.selected_offset(), Some(0));
    assert_eq!(view.elapsed(), None);
    assert_eq!(view.get_total_line_numbers(), None);
    assert_eq!(view.get_total_line_numbers_approx(), None);
    assert_eq!(view.get_total(), None);
    assert_eq!(view.bottom_rows_from(), None);
    assert!(!view.is_filter());
    assert!(view.columns_filter().is_none());
    assert_eq!(view.headers(), &Table::headers());
    assert_eq!(shown(&view), vec![0, 1, 2]);
    assert_eq!(view.fetch(), Fetch::Range { rows_from: 0, num_rows: 5 });
}

#[test]
fn set_rows_from_with_the_current_value_reads_nothing() {
    let table = Table::new(10, &[]);
    let mut view = table.open(5);
    let fetch = view.set_rows_from(3).unwrap();
    assert_eq!(fetch, Fetch::Range { rows_from: 3, num_rows: 5 });
    view.load(table.read(&fetch), 42);
    assert_eq!(view.elapsed(), Some(42));
    assert_eq!(view.set_rows_from(3), None);
    assert_eq!(view.rows_from(), 3);
    assert_eq!(view.elapsed(), Some(42));
    assert_eq!(shown(&view), vec![3, 4, 5, 6, 7]);
    // a value that clamps to the current position reads nothing either
    let fetch = view.set_rows_from(5).unwrap();
    view.load(table.read(&fetch), 43);
    assert_eq!(view.set_rows_from(9), None);
    assert_eq!(view.rows_from(), 5);
    assert_eq!(view.elapsed(), Some(43));
}

#[test]
fn set_rows_from_clamps_to_the_bottom() {
    let table = Table::new(10, &[]);
    let mut view = table.open(4);
    assert_eq!(view.bottom_rows_from(), Some(6));
    assert_eq!(view.set_rows_from(7), Some(Fetch::Range { rows_from: 6, num_rows: 4 }));
    assert_eq!(view.rows_from(), 6);
    assert_eq!(view.set_rows_from(u64::MAX), None);
    assert_eq!(view.rows_from(), 6);
    assert_eq!(view.set_rows_from(0), Some(Fetch::Range { rows_from: 0, num_rows: 4 }));
    assert_eq!(view.rows_from(), 0);
}

#[test]
fn set_rows_from_stays_at_zero_where_the_window_is_larger_than_the_file() {
    let table = Table::new(3, &[]);
    let mut view = table.open(5);
    assert_eq!(view.bottom_rows_from(), Some(0));
    assert_eq!(view.set_rows_from(2), None);
    assert_eq!(view.rows_from(), 0);
}

#[test]
fn set_rows_from_goes_anywhere_while_no_total_is_known() {
    let table = Table::new(10, &[]);
    let mut view = RowsView::new(Table::headers(), table.chunk.get_rows(0, 5), 5);
    let fetch = view.set_rows_from(1000).unwrap();
    assert_eq!(fetch, Fetch::Range { rows_from: 1000, num_rows: 5 });
    view.load(table.read(&fetch), 1);
    assert_eq!(view.rows_from(), 1000);
    assert_eq!(shown(&view), Vec::<u64>::new());
    assert_eq!(view.selected(), Some(0));
}

#[test]
fn the_estimate_is_used_until_the_total_is_exact() {
    let table = Table::new(10, &[]);
    let mut view = RowsView::new(Table::headers(), table.chunk.get_rows(0, 5), 5);
    view.update_totals(None, Some(8));
    assert_eq!(view.get_total_line_numbers(), None);
    assert_eq!(view.get_total_line_numbers_approx(), Some(8));
    assert_eq!(view.get_total(), Some(8));
    assert_eq!(view.bottom_rows_from(), Some(3));
    view.update_totals(Some(10), Some(8));
    assert_eq!(view.get_total(), Some(10));
    assert_eq!(view.bottom_rows_from(), Some(5));
}

#[test]
fn the_cursor_stays_on_the_rows_through_any_directives() {
    let table = Table::new(7, &[]);
    let mut view = table.open(3);
    let controls = [
        Control::ScrollDown,
        Control::ScrollDown,
        Control::ScrollDown,
        Control::ScrollBottom,
        Control::ScrollDown,
        Control::ScrollPageUp,
        Control::ScrollUp,
        Control::ScrollTo(6),
        Control::ScrollDown,
        Control::ScrollTop,
        Control::ScrollPageDown,
        Control::ScrollPageDown,
        Control::ScrollPageDown,
        Control::ScrollUp,
        Control::ScrollTo(0),
        Control::ScrollTo(usize::MAX),
        Control::Nothing,
        Control::ScrollBottom,
    ];
    for control in controls {
        table.handle(&mut view, control);
        let selected = view.selected().unwrap();
        assert!((selected as usize) < view.rows().len());
        assert!(view.rows_from() <= 4);
        let numbers: Vec<u64> = (view.rows_from()..view.rows_from() + 3).collect();
        assert_eq!(shown(&view), numbers);
    }
}

#[test]
fn scroll_down_moves_the_cursor_and_then_the_window() {
    let table = Table::new(10, &[]);
    let mut view = table.open(3);
    assert!(!table.handle(&mut view, Control::ScrollDown));
    assert_eq!((view.rows_from(), view.selected()), (0, Some(1)));
    assert!(!table.handle(&mut view, Control::ScrollDown));
    assert_eq!((view.rows_from(), view.selected()), (0, Some(2)));
    assert!(table.handle(&mut view, Control::ScrollDown));
    assert_eq!((view.rows_from(), view.selected()), (1, Some(2)));
    assert_eq!(shown(&view), vec![1, 2, 3]);
    assert_eq!(view.selected_offset(), Some(3));
}

#[test]
fn scroll_down_at_the_bottom_changes_nothing() {
    let table = Table::new(4, &[]);
    let mut view = table.open(3);
    table.handle(&mut view, Control::ScrollBottom);
    assert_eq!((view.rows_from(), view.selected()), (1, Some(2)));
    assert!(!table.handle(&mut view, Control::ScrollDown));
    assert_eq!((view.rows_from(), view.selected()), (1, Some(2)));
    assert_eq!(shown(&view), vec![1, 2, 3]);
}

#[test]
fn scroll_up_moves_the_cursor_and_then_the_window() {
    let table = Table::new(10, &[]);
    let mut view = table.open(3);
    let fetch = view.set_rows_from(2).unwrap();
    view.load(table.read(&fetch), 1);
    view.set_selected(1);
    assert!(!table.handle(&mut view, Control::ScrollUp));
    assert_eq!((view.rows_from(), view.selected()), (2, Some(0)));
    assert!(table.handle(&mut view, Control::ScrollUp));
    assert_eq!((view.rows_from(), view.selected()), (1, Some(0)));
    assert!(table.handle(&mut view, Control::ScrollUp));
    assert_eq!((view.rows_from(), view.selected()), (0, Some(0)));
    assert!(!table.handle(&mut view, Control::ScrollUp));
    assert_eq!((view.rows_from(), view.selected()), (0, Some(0)));
}

#[test]
fn scrolling_without_a_cursor_moves_the_window() {
    let table = Table::new(10, &[]);
    let mut view = table.open(3);
    view.reset_selected();
    assert_eq!(view.selected(), None);
    assert_eq!(view.selected_offset(), None);
    assert!(table.handle(&mut view, Control::ScrollDown));
    assert_eq!((view.rows_from(), view.selected()), (1, None));
    assert!(table.handle(&mut view, Control::ScrollPageDown));
    assert_eq!((view.rows_from(), view.selected()), (4, None));
    assert!(table.handle(&mut view, Control::ScrollUp));
    assert_eq!((view.rows_from(), view.selected()), (3, None));
    assert!(table.handle(&mut view, Control::ScrollBottom));
    assert_eq!((view.rows_from(), view.selected()), (7, None));
    assert!(table.handle(&mut view, Control::ScrollTop));
    assert_eq!((view.rows_from(), view.selected()), (0, None));
    view.increase_selected();
    view.decrease_selected();
    assert_eq!(view.selected(), None);
}

#[test]
fn page_up_goes_back_a_window_and_stops_at_the_top() {
    let table = Table::new(10, &[]);
    let mut view = table.open(4);
    table.handle(&mut view, Control::ScrollBottom);
    assert_eq!((view.rows_from(), view.selected()), (6, Some(3)));
    assert!(table.handle(&mut view, Control::ScrollPageUp));
    assert_eq!((view.rows_from(), view.selected()), (2, Some(0)));
    assert!(table.handle(&mut view, Control::ScrollPageUp));
    assert_eq!((view.rows_from(), view.selected()), (0, Some(0)));
    assert!(!table.handle(&mut view, Control::ScrollPageUp));
    assert_eq!((view.rows_from(), view.selected()), (0, Some(0)));
}

#[test]
fn scroll_bottom_puts_the_cursor_on_the_last_row() {
    let table = Table::new(10, &[]);
    let mut view = table.open(4);
    view.set_selected(1);
    let fetch = view.handle_control(&Control::ScrollBottom).unwrap();
    assert_eq!(fetch, Fetch::Range { rows_from: 6, num_rows: 4 });
    // until the rows are read the old ones stay, with the cursor on them
    assert_eq!((view.rows_from(), view.selected()), (6, Some(1)));
    assert_eq!(shown(&view), vec![0, 1, 2, 3]);
    view.load(table.read(&fetch), 1);
    assert_eq!((view.rows_from(), view.selected()), (6, Some(3)));
    assert_eq!(shown(&view), vec![6, 7, 8, 9]);
    // once more: nothing to read, the cursor stays on the last row
    view.set_selected(1);
    assert_eq!(view.handle_control(&Control::ScrollBottom), None);
    assert_eq!((view.rows_from(), view.selected()), (6, Some(3)));
}

#[test]
fn scroll_bottom_in_a_short_file() {
    let table = Table::new(2, &[]);
    let mut view = table.open(5);
    assert!(!table.handle(&mut view, Control::ScrollBottom));
    assert_eq!((view.rows_from(), view.selected()), (0, Some(1)));
}

#[test]
fn scroll_bottom_without_a_total_moves_only_the_cursor() {
    let table = Table::new(10, &[]);
    let mut view = RowsView::new(Table::headers(), table.chunk.get_rows(0, 4), 4);
    assert_eq!(view.handle_control(&Control::ScrollBottom), None);
    assert_eq!((view.rows_from(), view.selected()), (0, Some(3)));
}

#[test]
fn scroll_to_a_line_counts_from_one() {
    let table = Table::new(10, &[]);
    let mut view = table.open(3);
    view.set_selected(2);
    assert!(table.handle(&mut view, Control::ScrollTo(5)));
    assert_eq!((view.rows_from(), view.selected()), (4, Some(0)));
    assert_eq!(shown(&view), vec![4, 5, 6]);
    assert!(table.handle(&mut view, Control::ScrollTo(100)));
    assert_eq!((view.rows_from(), view.selected()), (7, Some(0)));
    assert!(table.handle(&mut view, Control::ScrollTo(0)));
    assert_eq!((view.rows_from(), view.selected()), (0, Some(0)));
    view.set_selected(2);
    assert!(!table.handle(&mut view, Control::ScrollTo(1)));
    assert_eq!((view.rows_from(), view.selected()), (0, Some(0)));
}

#[test]
fn other_directives_leave_the_view_alone() {
    let table = Table::new(10, &[]);
    let mut view = table.open(3);
    view.set_selected(1);
    for control in [
        Control::Nothing,
        Control::Quit,
        Control::Reset,
        Control::Filter("hit".to_string()),
        Control::FilterColumns("id".to_string()),
    ] {
        assert_eq!(view.handle_control(&control), None);
        assert_eq!((view.rows_from(), view.selected()), (0, Some(1)));
        assert_eq!(shown(&view), vec![0, 1, 2]);
    }
}

#[test]
fn set_selected_clamps_to_the_rows() {
    let table = Table::new(10, &[]);
    let mut view = table.open(3);
    view.set_selected(2);
    assert_eq!(view.selected(), Some(2));
    view.set_selected(3);
    assert_eq!(view.selected(), Some(2));
    view.set_selected(u64::MAX);
    assert_eq!(view.selected(), Some(2));
    view.increase_selected();
    assert_eq!(view.selected(), Some(2));
    view.select_top();
    assert_eq!(view.selected(), Some(0));
    view.decrease_selected();
    assert_eq!(view.selected(), Some(0));
    view.increase_selected();
    assert_eq!(view.selected(), Some(1));
    view.select_bottom();
    assert_eq!(view.selected(), Some(2));
    view.decrease_selected();
    assert_eq!(view.selected(), Some(1));
}

#[test]
fn the_cursor_of_an_empty_view_stays_at_zero() {
    let mut view = RowsView::new(Table::headers(), vec![], 5);
    view.set_selected(3);
    assert_eq!(view.selected(), Some(0));
    view.select_bottom();
    assert_eq!(view.selected(), Some(0));
    view.increase_selected();
    assert_eq!(view.selected(), Some(0));
}

#[test]
fn loading_fewer_rows_brings_the_cursor_back() {
    let table = Table::new(10, &[]);
    let mut view = table.open(5);
    view.set_selected(4);
    view.load(table.chunk.get_rows(0, 2), 9);
    assert_eq!(view.selected(), Some(1));
    assert_eq!(view.elapsed(), Some(9));
    view.load(vec![], 10);
    assert_eq!(view.selected(), Some(0));
    view.reset_selected();
    view.load(table.chunk.get_rows(0, 2), 11);
    assert_eq!(view.selected(), None);
}

#[test]
fn set_num_rows_reads_again_only_where_the_height_changes() {
    let table = Table::new(10, &[]);
    let mut view = table.open(5);
    assert_eq!(view.set_num_rows(5), None);
    let fetch = view.set_num_rows(3).unwrap();
    assert_eq!(fetch, Fetch::Range { rows_from: 0, num_rows: 3 });
    view.set_selected(4);
    view.load(table.read(&fetch), 1);
    assert_eq!(view.num_rows(), 3);
    assert_eq!(shown(&view), vec![0, 1, 2]);
    assert_eq!(view.selected(), Some(2));
    assert_eq!(view.bottom_rows_from(), Some(7));
}

#[test]
fn set_filter_reads_again_only_where_the_window_changes() {
    let table = Table::new(10, &[1, 4, 8]);
    let mut view = table.open(2);
    let mut finder = Finder::new(Regex::new("hit").unwrap());
    for row in table.chunk.get_rows(0, 5) {
        finder.scan(&row);
    }
    // rows 1 and 4 found so far
    let fetch = view.set_filter(&finder).unwrap();
    view.load(table.read(&fetch), 7);
    assert_eq!(view.get_total(), Some(2));
    for row in table.chunk.get_rows(5, 5) {
        finder.scan(&row);
    }
    // row 8 found too: the window is the same, the total is not
    assert_eq!(view.set_filter(&finder), None);
    assert_eq!(view.get_total(), Some(3));
    assert_eq!(view.bottom_rows_from(), Some(1));
    assert_eq!(view.elapsed(), Some(7));
    assert_eq!(shown(&view), vec![1, 4]);
}

#[test]
fn a_first_filter_without_matches_still_reads() {
    let table = Table::new(10, &[]);
    let mut view = table.open(2);
    let finder = table.search("hit");
    let fetch = view.set_filter(&finder).unwrap();
    assert_eq!(fetch, Fetch::Indices { indices: vec![] });
    view.load(table.read(&fetch), 1);
    assert_eq!(shown(&view), Vec::<u64>::new());
    assert_eq!(view.get_total(), Some(0));
    assert_eq!(view.selected(), Some(0));
}

#[test]
fn scrolling_under_a_filter_moves_over_the_matches() {
    let table = Table::new(10, &[1, 4, 8]);
    let mut view = table.open(2);
    let finder = table.search("hit");
    let fetch = view.set_filter(&finder).unwrap();
    view.load(table.read(&fetch), 1);
    // the bottom is the last full window over three matches
    let fetch = view.handle_control(&Control::ScrollPageDown).unwrap();
    assert_eq!(fetch, Fetch::Indices { indices: vec![4, 8] });
    assert_eq!(view.rows_from(), 1);
    view.load(table.read(&fetch), 1);
    assert_eq!(shown(&view), vec![4, 8]);
    // the next snapshot of the same matches has nothing new to show
    assert_eq!(view.set_filter(&finder), None);
    assert_eq!(shown(&view), vec![4, 8]);
    let fetch = view.handle_control(&Control::ScrollTop).unwrap();
    assert_eq!(fetch, Fetch::Indices { indices: vec![1, 4] });
}

#[test]
fn reset_filter_goes_back_to_the_file() {
    let table = Table::new(10, &[1, 4, 8]);
    let mut view = table.open(2);
    assert_eq!(view.reset_filter(), None);
    let finder = table.search("hit");
    let fetch = view.set_filter(&finder).unwrap();
    view.load(table.read(&fetch), 1);
    let fetch = view.reset_filter().unwrap();
    assert_eq!(fetch, Fetch::Range { rows_from: 0, num_rows: 2 });
    view.load(table.read(&fetch), 1);
    assert!(!view.is_filter());
    assert_eq!(shown(&view), vec![0, 1]);
    assert_eq!(view.get_total(), Some(10));
}

#[test]
fn a_columns_filter_cuts_headers_and_rows() {
    let table = Table::new(10, &[]);
    let mut view = table.open(2);
    let fetch = view.set_columns_filter(Regex::new("name|mark").unwrap());
    assert_eq!(fetch, Fetch::Range { rows_from: 0, num_rows: 2 });
    view.load(table.read(&fetch), 1);
    assert_eq!(view.headers(), &vec!["name".to_string(), "mark".to_string()]);
    assert_eq!(view.rows()[0].fields, vec!["name0".to_string(), "miss".to_string()]);
    assert_eq!(view.rows()[1].fields, vec!["name1".to_string(), "miss".to_string()]);
    assert_eq!(shown(&view), vec![0, 1]);
    let columns = view.columns_filter().unwrap();
    assert_eq!(columns.indices(), &vec![1usize, 2]);
    assert_eq!(columns.num_original(), 3);
    assert!(!columns.disabled_because_no_match());

    let fetch = view.reset_columns_filter();
    assert_eq!(fetch, Fetch::Range { rows_from: 0, num_rows: 2 });
    view.load(table.read(&fetch), 1);
    assert!(view.columns_filter().is_none());
    assert_eq!(view.headers(), &Table::headers());
    assert_eq!(view.rows()[0].fields.len(), 3);
}

#[test]
fn a_columns_filter_without_a_match_shows_everything() {
    let table = Table::new(10, &[]);
    let mut view = table.open(2);
    let fetch = view.set_columns_filter(Regex::new("nothing").unwrap());
    view.load(table.read(&fetch), 1);
    assert_eq!(view.headers(), &Table::headers());
    assert_eq!(view.rows()[1].fields, vec!["id1".to_string(), "name1".to_string(), "miss".to_string()]);
    assert!(view.columns_filter().unwrap().disabled_because_no_match());
}

#[test]
fn row_and_columns_filters_work_together() {
    let table = Table::new(10, &[1, 4, 8]);
    let mut view = table.open(2);
    let finder = table.search("hit");
    view.set_filter(&finder);
    let fetch = view.set_columns_filter(Regex::new("^id$").unwrap());
    assert_eq!(fetch, Fetch::Indices { indices: vec![1, 4] });
    view.load(table.read(&fetch), 1);
    assert_eq!(view.rows(), &vec![
        Row { row_number: 1, fields: vec!["id1".to_string()] },
        Row { row_number: 4, fields: vec!["id4".to_string()] },
    ]);
}

#[test]
fn filter_columns_compiles_the_pattern() {
    let table = Table::new(10, &[]);
    let mut view = table.open(2);
    let fetch = view.filter_columns("^na").unwrap();
    view.load(table.read(&fetch), 1);
    assert_eq!(view.headers(), &vec!["name".to_string()]);
    assert_eq!(view.rows()[0].fields, vec!["name0".to_string()]);
}

#[test]
fn a_malformed_pattern_keeps_the_columns_filter_in_place() {
    let table = Table::new(10, &[]);
    let mut view = table.open(2);
    let fetch = view.filter_columns("^na").unwrap();
    view.load(table.read(&fetch), 5);
    let error = view.filter_columns("(unclosed").unwrap_err();
    assert!(!error.message.is_empty());
    assert_eq!(view.headers(), &vec!["name".to_string()]);
    assert_eq!(view.columns_filter().unwrap().pattern().as_str(), "^na");
    assert_eq!(view.elapsed(), Some(5));
    let error = view.try_set_columns_filter(Err(error)).unwrap_err();
    assert!(!error.message.is_empty());
    assert_eq!(view.headers(), &vec!["name".to_string()]);
    let fetch = view.try_set_columns_filter(Ok(Regex::new("id").unwrap())).unwrap();
    view.load(table.read(&fetch), 6);
    assert_eq!(view.headers(), &vec!["id".to_string()]);
}

#[test]
fn in_view_tells_the_rows_of_the_window() {
    let table = Table::new(10, &[]);
    let mut view = table.open(3);
    table.handle(&mut view, Control::ScrollTo(5));
    assert!(!view.in_view(3));
    assert!(view.in_view(4));
    assert!(view.in_view(6));
    assert!(!view.in_view(7));
    let mut far = RowsView::new(Table::headers(), vec![], 10);
    far.set_rows_from(u64::MAX - 2);
    assert!(far.in_view(u64::MAX));
    assert!(!far.in_view(u64::MAX - 3));
}

#[test]
fn a_window_of_no_height() {
    let table = Table::new(10, &[]);
    let mut view = table.open(0);
    assert_eq!(shown(&view), Vec::<u64>::new());
    assert!(table.handle(&mut view, Control::ScrollDown));
    assert_eq!((view.rows_from(), view.selected()), (1, Some(0)));
    assert!(!view.in_view(1));
}

#[test]
fn subset_columns_cuts_every_row() {
    let table = Table::new(3, &[1]);
    let rows = table.chunk.get_rows(0, 3);
    let out = RowsView::subset_columns(&rows, &[2, 0]);
    assert_eq!(out, vec![
        Row { row_number: 0, fields: vec!["miss".to_string(), "id0".to_string()] },
        Row { row_number: 1, fields: vec!["hit".to_string(), "id1".to_string()] },
        Row { row_number: 2, fields: vec!["miss".to_string(), "id2".to_string()] },
    ]);
}

#[test]
fn a_snapshot_holds_the_window_and_the_count() {
    let table = Table::new(10, &[1, 4, 8]);
    let finder = table.search("hit");
    let filter = RowsFilter::new(&finder, 1, 5);
    assert_eq!(filter.indices(), &vec![4u64, 8]);
    assert_eq!(filter.total(), 3);
    let filter = RowsFilter::new(&finder, 0, 0);
    assert_eq!(filter.indices(), &Vec::<u64>::new());
    assert_eq!(filter.total(), 3);
    let filter = RowsFilter::new(&finder, u64::MAX, u64::MAX);
    assert_eq!(filter.indices(), &Vec::<u64>::new());
    let filter = RowsFilter::new(&finder, 2, u64::MAX);
    assert_eq!(filter.indices(), &vec![8u64]);
}

#[test]
fn filter_columns_hands_back_what_the_compiler_said() {
    let table = Table::new(10, &[]);
    let mut view = table.open(2);
    let said = Regex::new("a{2,1}").unwrap_err().to_string();
    let error = view.filter_columns("a{2,1}").unwrap_err();
    assert_eq!(error.message, said);
    assert!(view.columns_filter().is_none());
    assert_eq!(view.headers(), &Table::headers());
    assert_eq!(view.elapsed(), None);
}

#[test]
fn filter_columns_does_what_set_columns_filter_does() {
    let table = Table::new(10, &[]);
    let mut by_text = table.open(2);
    let mut by_expression = table.open(2);
    let fetch = by_text.filter_columns("a").unwrap();
    assert_eq!(fetch, by_expression.set_columns_filter(Regex::new("a").unwrap()));
    assert_eq!(fetch, Fetch::Range { rows_from: 0, num_rows: 2 });
    assert_eq!(by_text.headers(), by_expression.headers());
    assert_eq!(by_text.headers(), &vec!["name".to_string(), "mark".to_string()]);
    let columns = by_text.columns_filter().unwrap();
    assert_eq!(columns.indices(), &vec![1usize, 2]);
    assert!(!columns.disabled_because_no_match());
}

#[test]
fn the_cursor_stays_on_the_rows_where_a_read_never_comes() {
    let table = Table::new(10, &[]);
    let mut view = table.open(4);
    view.set_selected(2);
    let controls = [
        Control::ScrollBottom,
        Control::ScrollDown,
        Control::ScrollTop,
        Control::ScrollBottom,
        Control::ScrollPageUp,
        Control::ScrollTo(9),
        Control::ScrollBottom,
        Control::ScrollUp,
    ];
    for control in controls {
        // the rows asked for are never handed in
        view.handle_control(&control);
        let selected = view.selected().unwrap();
        assert!((selected as usize) < view.rows().len());
        assert_eq!(shown(&view), vec![0, 1, 2, 3]);
    }
}

#[test]
fn a_jump_to_the_bottom_waits_for_the_rows() {
    let table = Table::new(10, &[]);
    let mut view = table.open(4);
    let fetch = view.handle_control(&Control::ScrollBottom).unwrap();
    assert_eq!(view.selected(), Some(0));
    // fewer rows than the window holds: the cursor goes onto the last of them
    view.load(table.chunk.get_rows(6, 2), 1);
    assert_eq!(view.selected(), Some(1));
    assert_eq!(fetch, Fetch::Range { rows_from: 6, num_rows: 4 });
    // the jump was made: a later load leaves the cursor where it is
    view.set_selected(0);
    view.load(table.chunk.get_rows(6, 4), 1);
    assert_eq!(view.selected(), Some(0));
}

#[test]
fn a_pending_jump_is_dropped_where_the_cursor_or_the_window_is_set_anew() {
    let table = Table::new(10, &[]);
    let mut view = table.open(4);
    view.handle_control(&Control::ScrollBottom).unwrap();
    view.set_selected(1);
    view.load(table.chunk.get_rows(6, 4), 1);
    assert_eq!(view.selected(), Some(1));

    let mut view = table.open(4);
    view.handle_control(&Control::ScrollBottom).unwrap();
    let fetch = view.set_rows_from(2).unwrap();
    view.load(table.read(&fetch), 1);
    assert_eq!((view.rows_from(), view.selected()), (2, Some(0)));

    let mut view = table.open(4);
    view.handle_control(&Control::ScrollBottom).unwrap();
    let fetch = view.set_num_rows(3).unwrap();
    view.load(table.read(&fetch), 1);
    assert_eq!(view.selected(), Some(0));

    let mut view = table.open(4);
    view.handle_control(&Control::ScrollBottom).unwrap();
    view.reset_selected();
    view.load(table.chunk.get_rows(6, 4), 1);
    assert_eq!(view.selected(), None);
}

#[test]
fn a_failed_read_leaves_an_empty_view_that_can_be_used() {
    let table = Table::new(10, &[]);
    let mut view = table.open(4);
    view.set_selected(3);
    let fetch = view.handle_control(&Control::ScrollBottom).unwrap();
    let report = view.try_load(Err("disk on fire".to_string()), 17);
    assert_eq!(report, Some("disk on fire".to_string()));
    assert_eq!(shown(&view), Vec::<u64>::new());
    assert_eq!(view.selected(), Some(0));
    assert_eq!(view.rows_from(), 6);
    assert_eq!(view.elapsed(), Some(17));
    // the same rows can be asked for again
    assert_eq!(view.fetch(), fetch);
    assert_eq!(view.try_load(Ok(table.read(&fetch)), 18), None);
    assert_eq!(shown(&view), vec![6, 7, 8, 9]);
    assert_eq!(view.selected(), Some(0));
    assert!(table.handle(&mut view, Control::ScrollTop));
    assert_eq!(shown(&view), vec![0, 1, 2, 3]);
}

#[test]
fn try_load_cuts_the_rows_to_the_columns() {
    let table = Table::new(10, &[]);
    let mut view = table.open(2);
    let fetch = view.set_columns_filter(Regex::new("^id$").unwrap());
    assert_eq!(view.try_load(Ok(table.read(&fetch)), 1), None);
    assert_eq!(view.rows()[1].fields, vec!["id1".to_string()]);
}

#[test]
fn a_resize_under_a_filter_shows_the_matches_of_the_new_window() {
    let table = Table::new(10, &[1, 4, 8]);
    let mut view = table.open(2);
    let finder = table.search("hit");
    let fetch = view.set_filter(&finder).unwrap();
    view.load(table.read(&fetch), 1);
    assert_eq!(shown(&view), vec![1, 4]);
    let fetch = view.set_num_rows(3).unwrap();
    assert_eq!(fetch, Fetch::Indices { indices: vec![1, 4, 8] });
    view.load(table.read(&fetch), 1);
    assert_eq!(shown(&view), vec![1, 4, 8]);
    assert_eq!(view.get_total(), Some(3));
    let fetch = view.set_num_rows(1).unwrap();
    assert_eq!(fetch, Fetch::Indices { indices: vec![1] });
    view.load(table.read(&fetch), 1);
    assert_eq!(shown(&view), vec![1]);
    // the bottom is now the third match
    let fetch = view.handle_control(&Control::ScrollBottom).unwrap();
    assert_eq!(fetch, Fetch::Indices { indices: vec![8] });
    view.load(table.read(&fetch), 1);
    assert_eq!((view.rows_from(), shown(&view)), (2, vec![8]));
}

#[test]
fn a_move_under_a_filter_uses_the_matches_of_the_snapshot() {
    let table = Table::new(10, &[1, 4, 6, 8]);
    let mut view = table.open(2);
    let mut finder = Finder::new(Regex::new("hit").unwrap());
    for row in table.chunk.get_rows(0, 7) {
        finder.scan(&row);
    }
    let fetch = view.set_filter(&finder).unwrap();
    view.load(table.read(&fetch), 1);
    finder.scan(&table.chunk.get_rows(8, 1)[0]);
    assert_eq!(finder.count(), 4);
    // the view still knows three matches: its bottom is the second
    assert_eq!(view.set_rows_from(5), Some(Fetch::Indices { indices: vec![4, 6] }));
    assert_eq!(view.rows_from(), 1);
    // the next snapshot knows four
    assert_eq!(view.set_filter(&finder), None);
    assert_eq!(view.set_rows_from(5), Some(Fetch::Indices { indices: vec![6, 8] }));
    assert_eq!(view.rows_from(), 2);
}

#[test]
fn a_snapshot_can_be_cut_to_another_window() {
    let table = Table::new(10, &[1, 4, 8]);
    let finder = table.search("hit");
    let filter = RowsFilter::new(&finder, 0, 2);
    assert_eq!(filter.indices(), &vec![1u64, 4]);
    let filter = filter.cut(1, 5);
    assert_eq!(filter.indices(), &vec![4u64, 8]);
    assert_eq!(filter.total(), 3);
    let filter = filter.cut(3, 5);
    assert_eq!(filter.indices(), &Vec::<u64>::new());
    let filter = filter.cut(0, u64::MAX);
    assert_eq!(filter.indices(), &vec![1u64, 4, 8]);
}
