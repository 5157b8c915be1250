//! The log browser: the fetched entries, the filtered view, the selection
//! cursor, the expand mode, the list offset that follows the cursor, the
//! content offset of the expanded entry, and the scroll offset of the window
//! that is laid around the selection.
//!
//! `BrowserState` is the mathematical model and says what every operation
//! does; `LogViewer` is the executable browser, each of whose operations is
//! proved to do to its state what the model says.

use crate::bounds::{at_least, at_most};
use crate::entry::LogEntry;
use crate::filter::{
    lemma_empty_filter_keeps_all, lemma_matching_is_complete, lemma_matching_is_ordered_selection,
    matching, matching_all, position, positions,
};
use crate::text::{filter_keeps, lowercase, lowercase_chars, pop_char, push_char, without_last};
use vstd::prelude::*;

verus! {

/// How far a page operation scrolls.
pub const PAGE_STEP: usize = 10;

/// The messages of the entries.
pub open spec fn messages(logs: Seq<LogEntry>) -> Seq<Seq<char>> {
    Seq::new(logs.len(), |i: int| logs[i]@.message)
}

/// The list offset after the cursor has moved to `target`: the viewport
/// follows the cursor. A cursor at or below the bottom edge becomes the last
/// visible row, a cursor above the top edge the first; otherwise the
/// viewport stays. A viewport without rows counts as one row.
pub open spec fn followed(offset: int, target: int, visible_height: nat) -> int {
    if target >= offset + visible_height {
        target - at_least(visible_height - 1, 0)
    } else if target < offset {
        target
    } else {
        offset
    }
}

/// The first row of the window of `visible_height` rows that is laid around
/// `selected`: `visible_height / 2` rows stand above the selection, unless
/// the window would start before the list or end after it.
pub open spec fn window_start(selected: int, total: int, visible_height: nat) -> int {
    at_most(at_least(selected - visible_height / 2, 0), at_least(total - visible_height, 0))
}

/// A scroll operation on the expanded entry.
pub enum ScrollOp {
    Up,
    Down,
    PageUp,
    PageDown,
}

/// The state of the log browser.
pub struct BrowserState {
    pub function_name: Seq<char>,
    /// Start of the time range, epoch milliseconds.
    pub from: i64,
    /// End of the time range, epoch milliseconds.
    pub to: i64,
    /// The log collection.
    pub logs: Seq<LogEntry>,
    pub filter: Seq<char>,
    /// The filtered view, as positions in `logs`.
    pub filtered: Seq<int>,
    /// The selection cursor, a position in `filtered`.
    pub selected: Option<int>,
    pub expanded: bool,
    /// The first row of the collapsed list's viewport.
    pub list_offset: int,
    /// The first line of the expanded entry's viewport.
    pub content_offset: int,
    /// The first row of the window that was last laid around the
    /// selection; the list offset goes its own way.
    pub scroll_offset: int,
}

impl BrowserState {
    /// The filtered view is the one that the filter gives, and the cursor
    /// points into it, or at nothing where it is empty.
    pub open spec fn valid(self) -> bool {
        &&& self.filtered == matching_all(messages(self.logs), self.filter)
        &&& (self.selected is None <==> self.filtered.len() == 0)
        &&& (self.selected matches Some(i) ==> 0 <= i < self.filtered.len())
        &&& self.list_offset >= 0
        &&& self.content_offset >= 0
        &&& self.scroll_offset >= 0
    }

    /// The entries of the filtered view.
    pub open spec fn filtered_view(self) -> Seq<LogEntry> {
        Seq::new(self.filtered.len(), |k: int| self.logs[self.filtered[k]])
    }

    /// The entry under the cursor.
    pub open spec fn selected_entry(self) -> Option<LogEntry> {
        match self.selected {
            Some(i) => if 0 <= i < self.filtered.len() {
                Some(self.logs[self.filtered[i]])
            } else {
                None
            },
            None => None,
        }
    }

    /// The greatest content offset of an entry of `line_count` lines: its
    /// last line can be reached and nothing beyond it.
    pub open spec fn last_line(line_count: nat) -> int {
        at_least(line_count - 1, 0)
    }

    /// The content offset lies within the selected entry.
    pub open spec fn content_in_bounds(self) -> bool {
        &&& 0 <= self.content_offset
        &&& self.selected_entry() matches Some(entry) ==> self.content_offset <= Self::last_line(
            entry@.lines.len(),
        )
    }

    /// The state at the start: no entries, no filter, nothing selected.
    pub open spec fn initial(function_name: Seq<char>, from: i64, to: i64) -> BrowserState {
        BrowserState {
            function_name,
            from,
            to,
            logs: seq![],
            filter: seq![],
            filtered: seq![],
            selected: None,
            expanded: false,
            list_offset: 0,
            content_offset: 0,
            scroll_offset: 0,
        }
    }

    /// The filtered view is computed anew: the cursor goes to its first
    /// entry, or to nothing where it is empty, and expand mode ends.
    pub open spec fn refiltered(self) -> BrowserState {
        let filtered = matching_all(messages(self.logs), self.filter);
        BrowserState {
            filtered,
            selected: if filtered.len() == 0 {
                None
            } else {
                Some(0)
            },
            expanded: false,
            ..self
        }
    }

    /// The filter text is replaced.
    pub open spec fn with_filter(self, filter: Seq<char>) -> BrowserState {
        (BrowserState { filter, ..self }).refiltered()
    }

    /// The log collection is replaced wholesale.
    pub open spec fn with_logs(self, logs: Seq<LogEntry>) -> BrowserState {
        (BrowserState { logs, ..self }).refiltered()
    }

    /// The cursor after one step down or up: it stops at either end.
    pub open spec fn stepped(self, down: bool) -> int {
        let current = self.selected->0;
        if down {
            at_most(current + 1, self.filtered.len() - 1)
        } else {
            at_least(current - 1, 0)
        }
    }

    /// The cursor moves one step; in the collapsed list the viewport
    /// follows it.
    pub open spec fn moved(self, down: bool, visible_height: nat) -> BrowserState {
        if self.filtered.len() == 0 || self.selected is None {
            self
        } else {
            let target = self.stepped(down);
            BrowserState {
                selected: Some(target),
                list_offset: if self.expanded {
                    self.list_offset
                } else {
                    followed(self.list_offset, target, visible_height)
                },
                ..self
            }
        }
    }

    /// The rows `[start, end)` of the filtered view to draw in a viewport of
    /// `visible_height` rows: the window is laid around the selection.
    pub open spec fn visible_range(self, visible_height: nat) -> (int, int) {
        let total = self.filtered.len() as int;
        match self.selected {
            Some(selected) => {
                let start = window_start(selected, total, visible_height);
                (start, at_most(start + visible_height, total))
            },
            None => (0, at_most(visible_height as int, total)),
        }
    }

    /// A window is laid around the selection and its first row kept as the
    /// scroll offset. The list offset, which follows the cursor, and
    /// everything else stay as they are; without a selection nothing
    /// changes.
    pub open spec fn centered(self, visible_height: nat) -> BrowserState {
        match self.selected {
            Some(selected) => BrowserState {
                scroll_offset: window_start(selected, self.filtered.len() as int, visible_height),
                ..self
            },
            None => self,
        }
    }

    /// Expand mode is switched, the expanded entry is shown from its first
    /// line, and the scroll offset goes back to 0. The cursor and the list
    /// offset stay.
    pub open spec fn toggled(self) -> BrowserState {
        BrowserState { expanded: !self.expanded, content_offset: 0, scroll_offset: 0, ..self }
    }

    /// The expanded entry is scrolled `step` lines up, not beyond its first
    /// line. Nothing happens in the collapsed list or without a selection.
    pub open spec fn scrolled_up(self, step: nat) -> BrowserState {
        if self.expanded && self.selected_entry() is Some {
            BrowserState { content_offset: at_least(self.content_offset - step, 0), ..self }
        } else {
            self
        }
    }

    /// The expanded entry is scrolled `step` lines down, not beyond its last
    /// line. Nothing happens in the collapsed list or without a selection.
    pub open spec fn scrolled_down(self, step: nat) -> BrowserState {
        match self.selected_entry() {
            Some(entry) => if self.expanded {
                BrowserState {
                    content_offset: at_most(
                        self.content_offset + step,
                        Self::last_line(entry@.lines.len()),
                    ),
                    ..self
                }
            } else {
                self
            },
            None => self,
        }
    }

    /// One scroll operation.
    pub open spec fn scrolled(self, op: ScrollOp) -> BrowserState {
        match op {
            ScrollOp::Up => self.scrolled_up(1),
            ScrollOp::Down => self.scrolled_down(1),
            ScrollOp::PageUp => self.scrolled_up(PAGE_STEP as nat),
            ScrollOp::PageDown => self.scrolled_down(PAGE_STEP as nat),
        }
    }

    /// A sequence of scroll operations, the first of `ops` first.
    pub open spec fn scrolled_all(self, ops: Seq<ScrollOp>) -> BrowserState
        decreases ops.len(),
    {
        if ops.len() == 0 {
            self
        } else {
            self.scrolled_all(ops.drop_last()).scrolled(ops.last())
        }
    }
}

/// For every filter text the filtered view is a subsequence of the log
/// collection in its order: it names positions of the collection in
/// strictly increasing order, each of an entry that stays under the filter,
/// and leaves out no such entry.
pub proof fn lemma_filtered_view_is_subsequence(state: BrowserState)
    requires
        state.valid(),
    ensures
        state.filtered.len() <= state.logs.len(),
        forall|k: int| 0 <= k < state.filtered.len() ==> 0 <= #[trigger] state.filtered[k] < state.logs.len(),
        forall|j: int, k: int|
            0 <= j < k < state.filtered.len() ==> #[trigger] state.filtered[j] < #[trigger] state.filtered[k],
        forall|k: int|
            0 <= k < state.filtered.len() ==> filter_keeps(
                state.filter,
                (#[trigger] state.filtered_view()[k])@.message,
            ),
        forall|i: int|
            0 <= i < state.logs.len() && filter_keeps(state.filter, state.logs[i]@.message)
                ==> #[trigger] state.filtered.contains(i),
{
    let texts = messages(state.logs);
    lemma_matching_is_ordered_selection(texts, state.filter, texts.len());
    assert forall|i: int|
        0 <= i < state.logs.len() && filter_keeps(
            state.filter,
            state.logs[i]@.message,
        ) implies #[trigger] state.filtered.contains(i) by {
        lemma_matching_is_complete(texts, state.filter, texts.len(), i);
    }
}

/// Under the empty filter the filtered view is the log collection.
pub proof fn lemma_empty_filter_shows_all(state: BrowserState)
    requires
        state.valid(),
        state.filter.len() == 0,
    ensures
        state.filtered_view() == state.logs,
{
    let texts = messages(state.logs);
    lemma_empty_filter_keeps_all(texts, state.filter, texts.len());
}

/// After the filtered view has been computed anew the state is valid, and
/// the cursor is at the first entry of a view that has one and at nothing
/// otherwise.
pub proof fn lemma_refiltered_selects_first(state: BrowserState)
    requires
        state.list_offset >= 0,
        state.content_offset >= 0,
        state.scroll_offset >= 0,
    ensures
        state.refiltered().valid(),
        state.refiltered().filtered.len() > 0 ==> state.refiltered().selected == Some(0int),
        state.refiltered().filtered.len() == 0 ==> state.refiltered().selected is None,
        !state.refiltered().expanded,
{
}

/// Moving the cursor leaves the state valid: the cursor never leaves the
/// filtered view.
pub proof fn lemma_moved_stays_in_view(state: BrowserState, down: bool, visible_height: nat)
    requires
        state.valid(),
    ensures
        state.moved(down, visible_height).valid(),
        state.filtered.len() > 0 ==> state.moved(down, visible_height).selected is Some && 0
            <= state.moved(down, visible_height).selected->0 <= state.filtered.len() - 1,
        state.moved(down, visible_height).filtered == state.filtered,
{
}

/// At the last entry a move down changes nothing after the first time, and
/// the cursor stays at the last entry; likewise for a move up at the first
/// entry.
pub proof fn lemma_moved_is_idempotent_at_the_ends(
    state: BrowserState,
    down: bool,
    visible_height: nat,
)
    requires
        state.valid(),
        state.filtered.len() > 0,
        down ==> state.selected == Some(state.filtered.len() - 1),
        !down ==> state.selected == Some(0int),
    ensures
        state.moved(down, visible_height).selected == state.selected,
        state.moved(down, visible_height).moved(down, visible_height) == state.moved(
            down,
            visible_height,
        ),
{
}

/// After a move in the collapsed list the cursor is a row of the viewport.
pub proof fn lemma_viewport_follows_cursor(state: BrowserState, down: bool, visible_height: nat)
    requires
        state.valid(),
        state.filtered.len() > 0,
        !state.expanded,
        visible_height >= 1,
    ensures
        ({
            let after = state.moved(down, visible_height);
            after.list_offset <= after.selected->0 < after.list_offset + visible_height
        }),
{
}

/// One scroll operation keeps the content offset within the selected entry,
/// and touches nothing but the content offset.
pub proof fn lemma_scrolled_stays_in_bounds(state: BrowserState, op: ScrollOp)
    requires
        state.content_in_bounds(),
    ensures
        state.scrolled(op).content_in_bounds(),
        state.scrolled(op) == (BrowserState {
            content_offset: state.scrolled(op).content_offset,
            ..state
        }),
{
}

/// After any sequence of scroll operations the content offset is at least 0
/// and at most the last line of the selected entry, and nothing else has
/// changed.
pub proof fn lemma_scrolling_stays_in_bounds(state: BrowserState, ops: Seq<ScrollOp>)
    requires
        state.content_in_bounds(),
    ensures
        state.scrolled_all(ops).content_in_bounds(),
        state.scrolled_all(ops) == (BrowserState {
            content_offset: state.scrolled_all(ops).content_offset,
            ..state
        }),
    decreases ops.len(),
{
    if ops.len() > 0 {
        lemma_scrolling_stays_in_bounds(state, ops.drop_last());
        lemma_scrolled_stays_in_bounds(state.scrolled_all(ops.drop_last()), ops.last());
    }
}

/// A scroll down in expand mode brings the content offset within the
/// selected entry wherever it was before.
pub proof fn lemma_scrolled_down_is_in_bounds(state: BrowserState, step: nat)
    requires
        state.content_offset >= 0,
        state.expanded,
        state.selected_entry() is Some,
    ensures
        state.scrolled_down(step).content_in_bounds(),
{
}

/// Switching expand mode twice gives back the mode there was; both times
/// the content offset and the scroll offset are 0, and neither the cursor
/// nor the list offset changes.
pub proof fn lemma_toggled_twice(state: BrowserState)
    ensures
        state.toggled().toggled().expanded == state.expanded,
        state.toggled().content_offset == 0,
        state.toggled().toggled().content_offset == 0,
        state.toggled().selected == state.selected,
        state.toggled().list_offset == state.list_offset,
        state.toggled().toggled() == (BrowserState {
            content_offset: 0,
            scroll_offset: 0,
            ..state
        }),
        state.valid() ==> state.toggled().valid(),
        state.toggled().content_in_bounds(),
{
}

/// Laying a window around the selection changes the scroll offset alone:
/// with a cursor it becomes the first row of the window to draw, and the
/// cursor, the list offset, the content offset and the mode are as before.
pub proof fn lemma_centered_keeps_the_list_offset(state: BrowserState, visible_height: nat)
    requires
        state.valid(),
    ensures
        state.centered(visible_height).valid(),
        state.centered(visible_height) == (BrowserState {
            scroll_offset: state.centered(visible_height).scroll_offset,
            ..state
        }),
        state.selected is Some ==> state.centered(visible_height).scroll_offset
            == state.visible_range(visible_height).0,
        state.selected is None ==> state.centered(visible_height).scroll_offset
            == state.scroll_offset,
{
}

/// A filtered view that fits into the viewport is drawn whole, wherever the
/// cursor is.
pub proof fn lemma_short_list_is_drawn_whole(state: BrowserState, visible_height: nat)
    requires
        state.valid(),
        state.filtered.len() <= visible_height,
    ensures
        state.visible_range(visible_height) == (0int, state.filtered.len() as int),
{
}

/// The window to draw lies within the filtered view, has as many rows as
/// the viewport or as the view where that is shorter, and holds the
/// selected row.
pub proof fn lemma_visible_range_holds_selection(state: BrowserState, visible_height: nat)
    requires
        state.valid(),
    ensures
        ({
            let (start, end) = state.visible_range(visible_height);
            &&& 0 <= start <= end <= state.filtered.len()
            &&& end - start == at_most(visible_height as int, state.filtered.len() as int)
            &&& (visible_height >= 1 && state.selected is Some ==> start <= state.selected->0
                < end)
        }),
{
}

/// The log browser.
#[derive(Debug)]
pub struct LogViewer {
    function_name: String,
    from_date: i64,
    to_date: i64,
    logs: Vec<LogEntry>,
    filtered_logs: Vec<usize>,
    filter_input: String,
    selected_log: Option<usize>,
    expanded: bool,
    scroll_position: usize,
    start_index: usize,
    scroll_offset: usize,
}

impl View for LogViewer {
    type V = BrowserState;

    closed spec fn view(&self) -> BrowserState {
        BrowserState {
            function_name: self.function_name@,
            from: self.from_date,
            to: self.to_date,
            logs: self.logs@,
            filter: self.filter_input@,
            filtered: positions(self.filtered_logs@),
            selected: position(self.selected_log),
            expanded: self.expanded,
            list_offset: self.start_index as int,
            content_offset: self.scroll_position as int,
            scroll_offset: self.scroll_offset as int,
        }
    }
}

/// The positions of the entries that stay under `filter`.
fn select_entries(logs: &Vec<LogEntry>, filter: &str) -> (kept: Vec<usize>)
    ensures
        positions(kept@) == matching_all(messages(logs@), filter@),
{
    let lowered = lowercase_chars(filter);
    let mut kept: Vec<usize> = Vec::new();
    let mut i: usize = 0;
    while i < logs.len()
        invariant
            i <= logs.len(),
            lowered@ == lowercase(filter@),
            positions(kept@) == matching(messages(logs@), filter@, i as nat),
        decreases logs.len() - i,
    {
        if logs[i].keeps(filter, &lowered) {
            kept.push(i);
        }
        i += 1;
    }
    kept
}

impl LogViewer {
    /// The browser's state is valid.
    pub open spec fn wf(&self) -> bool {
        self@.valid()
    }

    /// A browser for the logs of a function in a time range given in epoch
    /// milliseconds; it holds no entries yet.
    pub fn new(function_name: String, from_date: i64, to_date: i64) -> (viewer: LogViewer)
        ensures
            viewer.wf(),
            viewer@ == BrowserState::initial(function_name@, from_date, to_date),
    {
        let viewer = LogViewer {
            function_name,
            from_date,
            to_date,
            logs: Vec::new(),
            filtered_logs: Vec::new(),
            filter_input: String::new(),
            selected_log: None,
            expanded: false,
            scroll_position: 0,
            start_index: 0,
            scroll_offset: 0,
        };
        assert(viewer@.filtered =~= seq![]);
        viewer
    }

    /// The function whose logs are shown.
    pub fn function_name(&self) -> (r: &str)
        ensures
            r@ == self@.function_name,
    {
        self.function_name.as_str()
    }

    /// The start of the time range, epoch milliseconds.
    pub fn from_date(&self) -> (r: i64)
        ensures
            r == self@.from,
    {
        self.from_date
    }

    /// The end of the time range, epoch milliseconds.
    pub fn to_date(&self) -> (r: i64)
        ensures
            r == self@.to,
    {
        self.to_date
    }

    /// The log collection.
    pub fn logs(&self) -> (r: &Vec<LogEntry>)
        ensures
            r@ == self@.logs,
    {
        &self.logs
    }

    /// The filter text.
    pub fn filter_input(&self) -> (r: &str)
        ensures
            r@ == self@.filter,
    {
        self.filter_input.as_str()
    }

    /// The selection cursor.
    pub fn selected_log(&self) -> (r: Option<usize>)
        ensures
            position(r) == self@.selected,
    {
        self.selected_log
    }

    /// Whether the selected entry is shown expanded.
    pub fn expanded(&self) -> (r: bool)
        ensures
            r == self@.expanded,
    {
        self.expanded
    }

    /// The content offset: the first line of the expanded entry's
    /// viewport.
    pub fn scroll_position(&self) -> (r: usize)
        ensures
            r == self@.content_offset,
    {
        self.scroll_position
    }

    /// The list offset: the first row of the collapsed list's viewport.
    pub fn start_index(&self) -> (r: usize)
        ensures
            r == self@.list_offset,
    {
        self.start_index
    }

    /// The scroll offset: the first row of the window that was last laid
    /// around the selection.
    pub fn scroll_offset(&self) -> (r: usize)
        ensures
            r == self@.scroll_offset,
    {
        self.scroll_offset
    }

    /// The number of entries of the filtered view.
    pub fn filtered_len(&self) -> (r: usize)
        ensures
            r == self@.filtered.len(),
    {
        self.filtered_logs.len()
    }

    /// The entry at a row of the filtered view, or nothing for a row that
    /// the view does not have.
    pub fn filtered_log(&self, row: usize) -> (r: Option<&LogEntry>)
        requires
            self.wf(),
        ensures
            match r {
                Some(entry) => row < self@.filtered.len() && self@.filtered_view()[row as int]
                    == *entry,
                None => row >= self@.filtered.len(),
            },
    {
        proof {
            lemma_filtered_view_is_subsequence(self@);
        }
        if row < self.filtered_logs.len() {
            assert(self@.filtered[row as int] == self.filtered_logs@[row as int]);
            Some(&self.logs[self.filtered_logs[row]])
        } else {
            None
        }
    }

    /// Takes the entries that were fetched for the time range: they replace
    /// the log collection, and the filtered view is computed anew.
    pub fn initialize(&mut self, logs: Vec<LogEntry>)
        ensures
            final(self).wf(),
            final(self)@ == old(self)@.with_logs(logs@),
    {
        self.logs = logs;
        self.update_filter();
    }

    /// Computes the filtered view anew from the log collection and the
    /// filter text.
    pub fn update_filter(&mut self)
        ensures
            final(self).wf(),
            final(self)@ == old(self)@.refiltered(),
    {
        let kept = select_entries(&self.logs, self.filter_input.as_str());
        self.selected_log = if kept.len() == 0 {
            None
        } else {
            Some(0)
        };
        self.filtered_logs = kept;
        self.expanded = false;
    }

    /// Replaces the filter text and computes the filtered view anew.
    pub fn set_filter(&mut self, filter: String)
        ensures
            final(self).wf(),
            final(self)@ == old(self)@.with_filter(filter@),
    {
        self.filter_input = filter;
        self.update_filter();
    }

    /// Appends a character to the filter text and computes the filtered
    /// view anew.
    pub fn push_filter_char(&mut self, c: char)
        ensures
            final(self).wf(),
            final(self)@ == old(self)@.with_filter(old(self)@.filter.push(c)),
    {
        push_char(&mut self.filter_input, c);
        self.update_filter();
    }

    /// Removes the last character of the filter text, if it has one, and
    /// computes the filtered view anew.
    pub fn pop_filter_char(&mut self)
        ensures
            final(self).wf(),
            final(self)@ == old(self)@.with_filter(without_last(old(self)@.filter)),
    {
        pop_char(&mut self.filter_input);
        self.update_filter();
    }

    /// Scrolls the expanded entry one line up.
    pub fn scroll_up(&mut self)
        requires
            old(self).wf(),
        ensures
            final(self).wf(),
            final(self)@ == old(self)@.scrolled(ScrollOp::Up),
    {
        if self.expanded && self.selected_log.is_some() {
            self.scroll_position = if self.scroll_position >= 1 {
                self.scroll_position - 1
            } else {
                0
            };
        }
    }

    /// Scrolls the expanded entry a page up.
    pub fn page_up(&mut self)
        requires
            old(self).wf(),
        ensures
            final(self).wf(),
            final(self)@ == old(self)@.scrolled(ScrollOp::PageUp),
    {
        if self.expanded && self.selected_log.is_some() {
            self.scroll_position = if self.scroll_position >= PAGE_STEP {
                self.scroll_position - PAGE_STEP
            } else {
                0
            };
        }
    }

    /// The content offset `step` lines further down, not beyond the last
    /// line of an entry of `line_count` lines.
    fn advanced(offset: usize, step: usize, line_count: usize) -> (r: usize)
        ensures
            r == at_most(offset + step, BrowserState::last_line(line_count as nat)),
    {
        let last: usize = if line_count >= 1 {
            line_count - 1
        } else {
            0
        };
        if offset >= last {
            last
        } else if last - offset <= step {
            last
        } else {
            offset + step
        }
    }

    /// Scrolls the expanded entry one line down.
    pub fn scroll_down(&mut self)
        requires
            old(self).wf(),
        ensures
            final(self).wf(),
            final(self)@ == old(self)@.scrolled(ScrollOp::Down),
    {
        if self.expanded {
            let line_count = match self.get_selected_log() {
                Some(entry) => Some(entry.line_count()),
                None => None,
            };
            match line_count {
                Some(count) => {
                    self.scroll_position = Self::advanced(self.scroll_position, 1, count);
                },
                None => {},
            }
        }
    }

    /// Scrolls the expanded entry a page down.
    pub fn page_down(&mut self)
        requires
            old(self).wf(),
        ensures
            final(self).wf(),
            final(self)@ == old(self)@.scrolled(ScrollOp::PageDown),
    {
        if self.expanded {
            let line_count = match self.get_selected_log() {
                Some(entry) => Some(entry.line_count()),
                None => None,
            };
            match line_count {
                Some(count) => {
                    self.scroll_position = Self::advanced(self.scroll_position, PAGE_STEP, count);
                },
                None => {},
            }
        }
    }

    /// Lays a window of `visible_height` rows around the selection and
    /// keeps its first row as the scroll offset.
    pub fn update_scroll(&mut self, visible_height: usize)
        requires
            old(self).wf(),
        ensures
            final(self).wf(),
            final(self)@ == old(self)@.centered(visible_height as nat),
    {
        match self.selected_log {
            Some(selected) => {
                self.scroll_offset = Self::start_of_window(
                    selected,
                    self.filtered_logs.len(),
                    visible_height,
                );
            },
            None => {},
        }
    }

    /// Switches expand mode, shows the expanded entry from its first line
    /// and sets the scroll offset back to 0.
    pub fn toggle_expand(&mut self)
        ensures
            final(self)@ == old(self)@.toggled(),
            old(self).wf() ==> final(self).wf(),
    {
        self.expanded = !self.expanded;
        self.scroll_position = 0;
        self.scroll_offset = 0;
    }

    /// The entry under the cursor.
    pub fn get_selected_log(&self) -> (r: Option<&LogEntry>)
        requires
            self.wf(),
        ensures
            match r {
                Some(entry) => self@.selected_entry() == Some(*entry),
                None => self@.selected_entry() is None,
            },
    {
        proof {
            lemma_filtered_view_is_subsequence(self@);
        }
        match self.selected_log {
            Some(i) => {
                Some(&self.logs[self.filtered_logs[i]])
            },
            None => None,
        }
    }

    fn start_of_window(selected: usize, total: usize, visible_height: usize) -> (start: usize)
        ensures
            start == window_start(selected as int, total as int, visible_height as nat),
    {
        let half: usize = visible_height / 2;
        let ideal: usize = if selected >= half {
            selected - half
        } else {
            0
        };
        let latest: usize = if total >= visible_height {
            total - visible_height
        } else {
            0
        };
        if ideal <= latest {
            ideal
        } else {
            latest
        }
    }

    /// The rows `[start, end)` of the filtered view to draw in a viewport
    /// of `visible_height` rows.
    pub fn get_visible_range(&self, visible_height: usize) -> (r: (usize, usize))
        requires
            self.wf(),
        ensures
            (r.0 as int, r.1 as int) == self@.visible_range(visible_height as nat),
    {
        let total: usize = self.filtered_logs.len();
        match self.selected_log {
            Some(selected) => {
                let start = Self::start_of_window(selected, total, visible_height);
                let end: usize = if visible_height >= total - start {
                    total
                } else {
                    start + visible_height
                };
                (start, end)
            },
            None => {
                if visible_height <= total {
                    (0, visible_height)
                } else {
                    (0, total)
                }
            },
        }
    }

    /// Moves the cursor one step, down for a positive `direction` and up
    /// otherwise; in the collapsed list the viewport follows it.
    pub fn move_selection(&mut self, direction: i32, visible_height: usize)
        requires
            old(self).wf(),
        ensures
            final(self).wf(),
            final(self)@ == old(self)@.moved(direction > 0, visible_height as nat),
    {
        if self.filtered_logs.len() == 0 {
            return;
        }
        match self.selected_log {
            Some(current) => {
                let last: usize = self.filtered_logs.len() - 1;
                let target: usize = if direction > 0 {
                    if current < last {
                        current + 1
                    } else {
                        last
                    }
                } else {
                    if current > 0 {
                        current - 1
                    } else {
                        0
                    }
                };
                self.selected_log = Some(target);
                if !self.expanded {
                    if visible_height <= target && self.start_index <= target - visible_height {
                        let rows: usize = if visible_height == 0 {
                            0
                        } else {
                            visible_height - 1
                        };
                        self.start_index = target - rows;
                    } else if target < self.start_index {
                        self.start_index = target;
                    }
                }
            },
            None => {},
        }
    }
}

} // verus!
