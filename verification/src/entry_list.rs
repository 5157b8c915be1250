//! A list of candidate items (credential profiles, function names) with a
//! filter and a highlighted item.
//!
//! `ListState` is the mathematical model; `EntryList` is the executable
//! list, each of whose operations is proved to do what the model says.

use crate::bounds::{at_least, at_most};
use crate::filter::{
    lemma_empty_filter_keeps_all, lemma_matching_is_ordered_selection, matching, matching_all,
    position, positions,
};
use crate::text::{
    all_keywords_found, filter_keeps, line_texts, lowercase, lowercase_chars, pop_char, push_char,
    without_last,
};
use vstd::prelude::*;

verus! {

/// How many items a page operation moves the highlight.
pub const PAGE_ITEMS: usize = 10;

/// The state of a list of candidates.
pub struct ListState {
    /// The display texts of the candidates, in their order.
    pub items: Seq<Seq<char>>,
    pub filter: Seq<char>,
    /// The filtered view, as positions in `items`.
    pub filtered: Seq<int>,
    /// The highlighted row of the filtered view; 0 where the view is empty.
    pub highlighted: int,
}

impl ListState {
    /// The filtered view is the one that the filter gives, and the
    /// highlight is one of its rows.
    pub open spec fn valid(self) -> bool {
        &&& self.filtered == matching_all(self.items, self.filter)
        &&& 0 <= self.highlighted
        &&& self.highlighted < at_least(self.filtered.len() as int, 1)
    }

    /// The list as it is first shown: no filter, the first item
    /// highlighted.
    pub open spec fn initial(items: Seq<Seq<char>>) -> ListState {
        ListState { items, filter: seq![], filtered: matching_all(items, seq![]), highlighted: 0 }
    }

    /// The filter text is replaced: the filtered view is computed anew and
    /// the highlight goes to its first row.
    pub open spec fn with_filter(self, filter: Seq<char>) -> ListState {
        ListState {
            filter,
            filtered: matching_all(self.items, filter),
            highlighted: 0,
            ..self
        }
    }

    /// The highlight moves `steps` rows down, not beyond the last row.
    pub open spec fn moved_down(self, steps: nat) -> ListState {
        ListState {
            highlighted: at_most(
                self.highlighted + steps,
                at_least(self.filtered.len() - 1, self.highlighted),
            ),
            ..self
        }
    }

    /// The highlight moves `steps` rows up, not beyond the first row.
    pub open spec fn moved_up(self, steps: nat) -> ListState {
        ListState { highlighted: at_least(self.highlighted - steps, 0), ..self }
    }

    /// The position in `items` of the highlighted item, or nothing where
    /// the filtered view is empty.
    pub open spec fn selected(self) -> Option<int> {
        if 0 <= self.highlighted < self.filtered.len() {
            Some(self.filtered[self.highlighted])
        } else {
            None
        }
    }
}

/// A list is valid when first shown and shows all its items.
pub proof fn lemma_initial_list_shows_all(items: Seq<Seq<char>>)
    ensures
        ListState::initial(items).valid(),
        ListState::initial(items).filtered == Seq::new(items.len(), |i: int| i),
{
    lemma_empty_filter_keeps_all(items, seq![], items.len());
}

/// Every operation keeps a list valid, and the moves leave the items, the
/// filter and the filtered view as they are.
pub proof fn lemma_list_stays_valid(state: ListState, filter: Seq<char>, steps: nat)
    requires
        state.valid(),
    ensures
        state.with_filter(filter).valid(),
        state.moved_down(steps).valid(),
        state.moved_up(steps).valid(),
{
}

/// The highlight stops at the last row and at the first: a move at the end
/// changes nothing.
pub proof fn lemma_highlight_stops_at_the_ends(state: ListState, steps: nat)
    requires
        state.valid(),
    ensures
        state.highlighted == at_least(state.filtered.len() - 1, 0) ==> state.moved_down(steps)
            == state,
        state.highlighted == 0 ==> state.moved_up(steps) == state,
{
}

/// A page move is ten single moves.
pub proof fn lemma_page_is_ten_steps(state: ListState)
    requires
        state.valid(),
    ensures
        state.moved_down(10) == state.moved_down(1).moved_down(1).moved_down(1).moved_down(
            1,
        ).moved_down(1).moved_down(1).moved_down(1).moved_down(1).moved_down(1).moved_down(1),
        state.moved_up(10) == state.moved_up(1).moved_up(1).moved_up(1).moved_up(1).moved_up(
            1,
        ).moved_up(1).moved_up(1).moved_up(1).moved_up(1).moved_up(1),
{
}

/// The selected item is an item of the list that stays under the filter;
/// there is one exactly when the filtered view is not empty.
pub proof fn lemma_selected_is_kept(state: ListState)
    requires
        state.valid(),
    ensures
        state.selected() is Some <==> state.filtered.len() > 0,
        state.selected() matches Some(i) ==> 0 <= i < state.items.len() && filter_keeps(
            state.filter,
            state.items[i],
        ),
{
    lemma_matching_is_ordered_selection(state.items, state.filter, state.items.len());
}

/// The positions of the items that stay under `filter`.
fn select_items(items: &Vec<String>, filter: &str) -> (kept: Vec<usize>)
    ensures
        positions(kept@) == matching_all(line_texts(items@), filter@),
{
    let lowered = lowercase_chars(filter);
    let mut kept: Vec<usize> = Vec::new();
    let mut i: usize = 0;
    while i < items.len()
        invariant
            i <= items.len(),
            lowered@ == lowercase(filter@),
            positions(kept@) == matching(line_texts(items@), filter@, i as nat),
        decreases items.len() - i,
    {
        let keep = if filter.is_empty() {
            true
        } else {
            let text = lowercase_chars(items[i].as_str());
            all_keywords_found(&lowered, &text)
        };
        if keep {
            kept.push(i);
        }
        i += 1;
    }
    kept
}

/// A list of candidates with a filter and a highlighted item.
#[derive(Debug)]
pub struct EntryList {
    items: Vec<String>,
    filter_input: String,
    filtered: Vec<usize>,
    highlighted: usize,
}

impl View for EntryList {
    type V = ListState;

    closed spec fn view(&self) -> ListState {
        ListState {
            items: line_texts(self.items@),
            filter: self.filter_input@,
            filtered: positions(self.filtered@),
            highlighted: self.highlighted as int,
        }
    }
}

impl EntryList {
    /// The list's state is valid.
    pub open spec fn wf(&self) -> bool {
        self@.valid()
    }

    /// A list of the given candidates, unfiltered, the first highlighted.
    pub fn new(items: Vec<String>) -> (list: EntryList)
        ensures
            list.wf(),
            list@ == ListState::initial(line_texts(items@)),
    {
        let filter_input = String::new();
        let filtered = select_items(&items, filter_input.as_str());
        EntryList { items, filter_input, filtered, highlighted: 0 }
    }

    /// The display texts of the candidates.
    pub fn items(&self) -> (r: &Vec<String>)
        ensures
            line_texts(r@) == self@.items,
    {
        &self.items
    }

    /// The filter text.
    pub fn filter_input(&self) -> (r: &str)
        ensures
            r@ == self@.filter,
    {
        self.filter_input.as_str()
    }

    /// The highlighted row of the filtered view.
    pub fn highlighted(&self) -> (r: usize)
        ensures
            r == self@.highlighted,
    {
        self.highlighted
    }

    /// The number of rows of the filtered view.
    pub fn filtered_len(&self) -> (r: usize)
        ensures
            r == self@.filtered.len(),
    {
        self.filtered.len()
    }

    /// The item at a row of the filtered view, or nothing for a row that
    /// the view does not have.
    pub fn filtered_item(&self, row: usize) -> (r: Option<&String>)
        requires
            self.wf(),
        ensures
            match r {
                Some(item) => row < self@.filtered.len() && self@.items[self@.filtered[row as int]]
                    == item@,
                None => row >= self@.filtered.len(),
            },
    {
        proof {
            lemma_matching_is_ordered_selection(self@.items, self@.filter, self@.items.len());
        }
        if row < self.filtered.len() {
            let i: usize = self.filtered[row];
            assert(self@.filtered[row as int] == i);
            Some(&self.items[i])
        } else {
            None
        }
    }

    /// Replaces the filter text.
    pub fn set_filter(&mut self, filter: String)
        ensures
            final(self).wf(),
            final(self)@ == old(self)@.with_filter(filter@),
    {
        self.filter_input = filter;
        self.update_filter();
    }

    /// Computes the filtered view anew from the items and the filter text,
    /// and highlights its first row.
    pub fn update_filter(&mut self)
        ensures
            final(self).wf(),
            final(self)@ == old(self)@.with_filter(old(self)@.filter),
    {
        let kept = select_items(&self.items, self.filter_input.as_str());
        self.filtered = kept;
        self.highlighted = 0;
    }

    /// Appends a character to the filter text.
    pub fn push_filter_char(&mut self, c: char)
        ensures
            final(self).wf(),
            final(self)@ == old(self)@.with_filter(old(self)@.filter.push(c)),
    {
        push_char(&mut self.filter_input, c);
        self.update_filter();
    }

    /// Removes the last character of the filter text, if it has one.
    pub fn pop_filter_char(&mut self)
        ensures
            final(self).wf(),
            final(self)@ == old(self)@.with_filter(without_last(old(self)@.filter)),
    {
        pop_char(&mut self.filter_input);
        self.update_filter();
    }

    fn move_down(&mut self, steps: usize)
        requires
            old(self).wf(),
        ensures
            final(self).wf(),
            final(self)@ == old(self)@.moved_down(steps as nat),
    {
        let count: usize = self.filtered.len();
        if count > 0 {
            let last: usize = count - 1;
            if last - self.highlighted <= steps {
                self.highlighted = last;
            } else {
                self.highlighted = self.highlighted + steps;
            }
        }
    }

    fn move_up(&mut self, steps: usize)
        requires
            old(self).wf(),
        ensures
            final(self).wf(),
            final(self)@ == old(self)@.moved_up(steps as nat),
    {
        if self.highlighted >= steps {
            self.highlighted = self.highlighted - steps;
        } else {
            self.highlighted = 0;
        }
    }

    /// Highlights the next row; at the last row nothing changes.
    pub fn next(&mut self)
        requires
            old(self).wf(),
        ensures
            final(self).wf(),
            final(self)@ == old(self)@.moved_down(1),
    {
        self.move_down(1);
    }

    /// Highlights the row before; at the first row nothing changes.
    pub fn previous(&mut self)
        requires
            old(self).wf(),
        ensures
            final(self).wf(),
            final(self)@ == old(self)@.moved_up(1),
    {
        self.move_up(1);
    }

    /// Moves the highlight a page down.
    pub fn page_down(&mut self)
        requires
            old(self).wf(),
        ensures
            final(self).wf(),
            final(self)@ == old(self)@.moved_down(PAGE_ITEMS as nat),
    {
        self.move_down(PAGE_ITEMS);
    }

    /// Moves the highlight a page up.
    pub fn page_up(&mut self)
        requires
            old(self).wf(),
        ensures
            final(self).wf(),
            final(self)@ == old(self)@.moved_up(PAGE_ITEMS as nat),
    {
        self.move_up(PAGE_ITEMS);
    }

    /// The position among the items of the highlighted one, or nothing
    /// where the filtered view is empty.
    pub fn selected_index(&self) -> (r: Option<usize>)
        requires
            self.wf(),
        ensures
            position(r) == self@.selected(),
            r matches Some(i) ==> i < self@.items.len(),
    {
        proof {
            lemma_matching_is_ordered_selection(self@.items, self@.filter, self@.items.len());
        }
        if self.highlighted < self.filtered.len() {
            Some(self.filtered[self.highlighted])
        } else {
            None
        }
    }

    /// The highlighted item, or nothing where the filtered view is empty.
    pub fn selected(&self) -> (r: Option<&String>)
        requires
            self.wf(),
        ensures
            match r {
                Some(item) => self@.selected() matches Some(i) && self@.items[i] == item@,
                None => self@.selected() is None,
            },
    {
        match self.selected_index() {
            Some(i) => {
                Some(&self.items[i])
            },
            None => None,
        }
    }
}

} // verus!
