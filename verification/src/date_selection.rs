//! The range selector: a time range is either one of a few quick ranges
//! that end now, or a custom range given by four fields, the day and the
//! hour of its start and the day and the hour of its end.
//!
//! `RangeState` is the mathematical model; `DateSelection` is the
//! executable selector, each of whose operations is proved to do what the
//! model says.

use crate::bounds::{at_least, at_most};
use vstd::prelude::*;

verus! {

/// Milliseconds in an hour.
pub const HOUR_MILLIS: i64 = 3_600_000;

/// Milliseconds in a day.
pub const DAY_MILLIS: i64 = 86_400_000;

/// The last day that a custom range can name, counted from 1 January 1970:
/// 31 December 9999.
pub const LAST_DAY: i64 = 2_932_896;

/// The last hour of a day.
pub const LAST_HOUR: i64 = 23;

/// The number of quick ranges.
pub const QUICK_RANGES: usize = 8;

/// The number of fields of a custom range.
pub const FIELDS: usize = 4;

/// The column that has the focus.
#[derive(Clone, Copy, Debug, PartialEq, Eq, Structural)]
pub enum ActiveColumn {
    QuickRanges,
    CustomRange,
}

/// Why a range cannot be used.
#[derive(Clone, Copy, Debug, PartialEq, Eq, Structural)]
pub enum ValidationError {
    /// The custom range starts after its end.
    FromAfterTo,
}

/// A time range `[from, to)` in epoch milliseconds.
#[derive(Clone, Copy, Debug, PartialEq, Eq, Structural)]
pub struct TimeRange {
    pub from: i64,
    pub to: i64,
}

/// The length in milliseconds of the quick range at `index`: 15 minutes,
/// 1, 3, 6, 12 and 24 hours, 3 and 7 days.
pub open spec fn quick_span(index: int) -> int {
    if index == 0 {
        900_000
    } else if index == 1 {
        3_600_000
    } else if index == 2 {
        10_800_000
    } else if index == 3 {
        21_600_000
    } else if index == 4 {
        43_200_000
    } else if index == 5 {
        86_400_000
    } else if index == 6 {
        259_200_000
    } else {
        604_800_000
    }
}

/// The name of the quick range at `index`.
pub open spec fn quick_name(index: int) -> Seq<char> {
    if index == 0 {
        "Last 15 minutes"@
    } else if index == 1 {
        "Last hour"@
    } else if index == 2 {
        "Last 3 hours"@
    } else if index == 3 {
        "Last 6 hours"@
    } else if index == 4 {
        "Last 12 hours"@
    } else if index == 5 {
        "Last 24 hours"@
    } else if index == 6 {
        "Last 3 days"@
    } else {
        "Last 7 days"@
    }
}

/// What is shown for a range that cannot be used.
pub open spec fn validation_text(error: ValidationError) -> Seq<char> {
    match error {
        ValidationError::FromAfterTo => "The range starts after its end"@,
    }
}

/// The greatest value of the custom field at `index`: the fields are the
/// start's day and hour and the end's day and hour.
pub open spec fn field_max(index: int) -> int {
    if index == 0 || index == 2 {
        LAST_DAY as int
    } else {
        LAST_HOUR as int
    }
}

/// The instant that a day and an hour name.
pub open spec fn instant(day: int, hour: int) -> int {
    day * DAY_MILLIS + hour * HOUR_MILLIS
}

/// The day of an instant, within the days that a field can hold.
pub open spec fn day_of(now: int) -> int {
    at_most(at_least(now, 0) / (DAY_MILLIS as int), LAST_DAY as int)
}

/// The hour within its day of an instant; 0 before 1970.
pub open spec fn hour_of(now: int) -> int {
    (at_least(now, 0) / (HOUR_MILLIS as int)) % 24
}

/// The state of the range selector.
pub struct RangeState {
    pub column: ActiveColumn,
    /// Whether up and down adjust the focused custom field.
    pub editing: bool,
    /// The chosen quick range.
    pub quick: int,
    /// The custom fields: day and hour of the start, day and hour of the
    /// end.
    pub fields: Seq<int>,
    /// The custom field that has the focus.
    pub active_field: int,
}

impl RangeState {
    /// Every field lies in its domain, and only the custom column is
    /// edited.
    pub open spec fn valid(self) -> bool {
        &&& 0 <= self.quick < QUICK_RANGES
        &&& self.fields.len() == FIELDS
        &&& forall|i: int| 0 <= i < FIELDS ==> 0 <= #[trigger] self.fields[i] <= field_max(i)
        &&& 0 <= self.active_field < FIELDS
        &&& (self.editing ==> self.column == ActiveColumn::CustomRange)
    }

    /// The selector as it is first shown at the instant `now`: the quick
    /// column has the focus with its first range, and the custom range runs
    /// from the start of the day of `now` to the hour of `now`.
    pub open spec fn initial(now: int) -> RangeState {
        RangeState {
            column: ActiveColumn::QuickRanges,
            editing: false,
            quick: 0,
            fields: seq![day_of(now), 0, day_of(now), hour_of(now)],
            active_field: 0,
        }
    }

    /// The focus goes to a column; editing ends where the column changes.
    pub open spec fn with_column(self, column: ActiveColumn) -> RangeState {
        RangeState { column, editing: self.editing && column == self.column, ..self }
    }

    /// Editing is switched on or off; only the custom column can be edited.
    pub open spec fn toggled(self) -> RangeState {
        if self.column == ActiveColumn::CustomRange {
            RangeState { editing: !self.editing, ..self }
        } else {
            self
        }
    }

    /// The focus moves to the next custom field or to the one before, and
    /// stops at the last and at the first.
    pub open spec fn field_moved(self, forward: bool) -> RangeState {
        RangeState {
            active_field: if forward {
                at_most(self.active_field + 1, FIELDS - 1)
            } else {
                at_least(self.active_field - 1, 0)
            },
            ..self
        }
    }

    /// The next quick range or the one before is chosen; the choice stops
    /// at the last and at the first.
    pub open spec fn quick_moved(self, forward: bool) -> RangeState {
        RangeState {
            quick: if forward {
                at_most(self.quick + 1, QUICK_RANGES - 1)
            } else {
                at_least(self.quick - 1, 0)
            },
            ..self
        }
    }

    /// The next quick range or the one before is chosen; after the last
    /// comes the first, and before the first the last.
    pub open spec fn quick_cycled(self, forward: bool) -> RangeState {
        RangeState {
            quick: if forward {
                if self.quick + 1 >= QUICK_RANGES {
                    0
                } else {
                    self.quick + 1
                }
            } else {
                if self.quick <= 0 {
                    QUICK_RANGES - 1
                } else {
                    self.quick - 1
                }
            },
            ..self
        }
    }

    /// The focused custom field goes up or down by one and stays in its
    /// domain; no other field changes.
    pub open spec fn adjusted(self, increase: bool) -> RangeState {
        let value = self.fields[self.active_field];
        RangeState {
            fields: self.fields.update(
                self.active_field,
                if increase {
                    at_most(value + 1, field_max(self.active_field))
                } else {
                    at_least(value - 1, 0)
                },
            ),
            ..self
        }
    }

    /// Left and right: between the custom fields where the custom column
    /// has the focus, between the quick ranges otherwise.
    pub open spec fn sideways(self, right: bool) -> RangeState {
        if self.column == ActiveColumn::CustomRange {
            self.field_moved(right)
        } else {
            self.quick_moved(right)
        }
    }

    /// Up and down: while editing, up raises the focused custom field and
    /// down lowers it; otherwise up chooses the quick range before and down
    /// the next, in a cycle.
    pub open spec fn vertical(self, up: bool) -> RangeState {
        if self.editing {
            self.adjusted(up)
        } else {
            self.quick_cycled(!up)
        }
    }

    /// The start of the custom range.
    pub open spec fn custom_from(self) -> int {
        instant(self.fields[0], self.fields[1])
    }

    /// The end of the custom range.
    pub open spec fn custom_to(self) -> int {
        instant(self.fields[2], self.fields[3])
    }

    /// The range that is chosen at the instant `now`: the quick range ends
    /// at `now`; a custom range that starts after its end is refused.
    pub open spec fn resolved(self, now: i64) -> Result<TimeRange, ValidationError> {
        if self.column == ActiveColumn::QuickRanges {
            Ok(TimeRange { from: at_least(now - quick_span(self.quick), i64::MIN as int) as i64, to: now })
        } else if self.custom_from() > self.custom_to() {
            Err(ValidationError::FromAfterTo)
        } else {
            Ok(TimeRange { from: self.custom_from() as i64, to: self.custom_to() as i64 })
        }
    }
}

/// The selector is valid when first shown, and its custom range is one
/// that can be used.
pub proof fn lemma_initial_range_is_valid(now: int)
    ensures
        RangeState::initial(now).valid(),
        RangeState::initial(now).custom_from() <= RangeState::initial(now).custom_to(),
{
}

/// Every operation keeps the selector valid.
pub proof fn lemma_range_stays_valid(state: RangeState, column: ActiveColumn, flag: bool)
    requires
        state.valid(),
    ensures
        state.with_column(column).valid(),
        state.toggled().valid(),
        state.field_moved(flag).valid(),
        state.quick_moved(flag).valid(),
        state.quick_cycled(flag).valid(),
        state.adjusted(flag).valid(),
        state.sideways(flag).valid(),
        state.vertical(flag).valid(),
{
}

/// An adjustment changes the focused field alone, by at most one, and
/// changes nothing at the end of the field's domain: a field that is full
/// does not carry into the next.
pub proof fn lemma_adjustment_is_local(state: RangeState, increase: bool)
    requires
        state.valid(),
    ensures
        forall|i: int|
            0 <= i < FIELDS && i != state.active_field ==> #[trigger] state.adjusted(
                increase,
            ).fields[i] == state.fields[i],
        increase && state.fields[state.active_field] == field_max(state.active_field)
            ==> state.adjusted(increase) == state,
        !increase && state.fields[state.active_field] == 0 ==> state.adjusted(increase) == state,
        increase && state.fields[state.active_field] < field_max(state.active_field)
            ==> state.adjusted(increase).fields[state.active_field] == state.fields[state.active_field] + 1,
        !increase && state.fields[state.active_field] > 0 ==> state.adjusted(
            increase,
        ).fields[state.active_field] == state.fields[state.active_field] - 1,
{
    if increase && state.fields[state.active_field] == field_max(state.active_field) {
        assert(state.adjusted(increase).fields =~= state.fields);
    }
    if !increase && state.fields[state.active_field] == 0 {
        assert(state.adjusted(increase).fields =~= state.fields);
    }
}

/// Stepping through the quick ranges in a cycle comes back to the start
/// after as many steps as there are ranges, and a step back undoes a step
/// forward.
pub proof fn lemma_quick_ranges_cycle(state: RangeState)
    requires
        state.valid(),
    ensures
        state.quick_cycled(true).quick_cycled(false) == state,
        state.quick_cycled(false).quick_cycled(true) == state,
        state.quick_cycled(true).quick_cycled(true).quick_cycled(true).quick_cycled(
            true,
        ).quick_cycled(true).quick_cycled(true).quick_cycled(true).quick_cycled(true) == state,
{
}

/// A range that is handed out does not start after its end, and a range is
/// refused exactly where the custom column has the focus and its range
/// starts after its end.
pub proof fn lemma_resolved_range_is_ordered(state: RangeState, now: i64)
    requires
        state.valid(),
    ensures
        state.resolved(now) matches Ok(range) ==> range.from <= range.to,
        state.resolved(now) is Err <==> state.column == ActiveColumn::CustomRange
            && state.custom_from() > state.custom_to(),
        state.resolved(now) matches Ok(range) ==> (state.column == ActiveColumn::CustomRange
            ==> range.from == state.custom_from() && range.to == state.custom_to()),
        state.resolved(now) matches Ok(range) ==> (state.column == ActiveColumn::QuickRanges
            ==> range.to == now && range.from == at_least(
            now - quick_span(state.quick),
            i64::MIN as int,
        )),
{
}

/// The length in milliseconds of the quick range at `index`.
pub fn quick_span_millis(index: usize) -> (span: i64)
    ensures
        span == quick_span(index as int),
{
    if index == 0 {
        900_000
    } else if index == 1 {
        3_600_000
    } else if index == 2 {
        10_800_000
    } else if index == 3 {
        21_600_000
    } else if index == 4 {
        43_200_000
    } else if index == 5 {
        86_400_000
    } else if index == 6 {
        259_200_000
    } else {
        604_800_000
    }
}

/// The name of the quick range at `index`.
pub fn quick_range_name(index: usize) -> (name: &'static str)
    ensures
        name@ == quick_name(index as int),
{
    if index == 0 {
        "Last 15 minutes"
    } else if index == 1 {
        "Last hour"
    } else if index == 2 {
        "Last 3 hours"
    } else if index == 3 {
        "Last 6 hours"
    } else if index == 4 {
        "Last 12 hours"
    } else if index == 5 {
        "Last 24 hours"
    } else if index == 6 {
        "Last 3 days"
    } else {
        "Last 7 days"
    }
}

impl ValidationError {
    /// What is shown for the error.
    pub fn message(&self) -> (text: &'static str)
        ensures
            text@ == validation_text(*self),
    {
        match self {
            ValidationError::FromAfterTo => "The range starts after its end",
        }
    }
}

/// The range selector of one function of one profile.
#[derive(Debug)]
pub struct DateSelection {
    profile_name: String,
    function_name: String,
    active_column: ActiveColumn,
    custom_selection: bool,
    quick_range: usize,
    from_day: i64,
    from_hour: i64,
    to_day: i64,
    to_hour: i64,
    current_field: usize,
}

impl View for DateSelection {
    type V = RangeState;

    closed spec fn view(&self) -> RangeState {
        RangeState {
            column: self.active_column,
            editing: self.custom_selection,
            quick: self.quick_range as int,
            fields: seq![
                self.from_day as int,
                self.from_hour as int,
                self.to_day as int,
                self.to_hour as int,
            ],
            active_field: self.current_field as int,
        }
    }
}

impl DateSelection {
    /// The selector's state is valid.
    pub open spec fn wf(&self) -> bool {
        self@.valid()
    }

    /// The profile that the selector belongs to.
    pub closed spec fn spec_profile_name(&self) -> Seq<char> {
        self.profile_name@
    }

    /// The function that the selector belongs to.
    pub closed spec fn spec_function_name(&self) -> Seq<char> {
        self.function_name@
    }

    /// A selector as it is first shown at the instant `now`, given in epoch
    /// milliseconds.
    pub fn new(profile_name: String, function_name: String, now: i64) -> (selection: DateSelection)
        ensures
            selection.wf(),
            selection@ == RangeState::initial(now as int),
            selection.spec_profile_name() == profile_name@,
            selection.spec_function_name() == function_name@,
    {
        let past: i64 = if now >= 0 {
            now
        } else {
            0
        };
        let days: i64 = past / DAY_MILLIS;
        let day: i64 = if days <= LAST_DAY {
            days
        } else {
            LAST_DAY
        };
        let hour: i64 = (past / HOUR_MILLIS) % 24;
        let selection = DateSelection {
            profile_name,
            function_name,
            active_column: ActiveColumn::QuickRanges,
            custom_selection: false,
            quick_range: 0,
            from_day: day,
            from_hour: 0,
            to_day: day,
            to_hour: hour,
            current_field: 0,
        };
        proof {
            lemma_initial_range_is_valid(now as int);
        }
        selection
    }

    /// The profile that the selector belongs to.
    pub fn profile_name(&self) -> (r: &str)
        ensures
            r@ == self.spec_profile_name(),
    {
        self.profile_name.as_str()
    }

    /// The function that the selector belongs to.
    pub fn function_name(&self) -> (r: &str)
        ensures
            r@ == self.spec_function_name(),
    {
        self.function_name.as_str()
    }

    /// The column that has the focus.
    pub fn active_column(&self) -> (r: ActiveColumn)
        ensures
            r == self@.column,
    {
        self.active_column
    }

    /// Whether up and down adjust the focused custom field.
    pub fn custom_selection(&self) -> (r: bool)
        ensures
            r == self@.editing,
    {
        self.custom_selection
    }

    /// The position of the chosen quick range.
    pub fn quick_range(&self) -> (r: usize)
        ensures
            r == self@.quick,
    {
        self.quick_range
    }

    /// The position of the custom field that has the focus.
    pub fn current_field(&self) -> (r: usize)
        ensures
            r == self@.active_field,
    {
        self.current_field
    }

    /// The value of the custom field at `index`: day and hour of the
    /// start, day and hour of the end; nothing for another index.
    pub fn field(&self, index: usize) -> (r: Option<i64>)
        ensures
            match r {
                Some(value) => index < FIELDS && value == self@.fields[index as int],
                None => index >= FIELDS,
            },
    {
        if index == 0 {
            Some(self.from_day)
        } else if index == 1 {
            Some(self.from_hour)
        } else if index == 2 {
            Some(self.to_day)
        } else if index == 3 {
            Some(self.to_hour)
        } else {
            None
        }
    }

    /// Gives the focus to a column.
    pub fn select_column(&mut self, column: ActiveColumn)
        requires
            old(self).wf(),
        ensures
            final(self).wf(),
            final(self)@ == old(self)@.with_column(column),
            final(self).spec_profile_name() == old(self).spec_profile_name(),
            final(self).spec_function_name() == old(self).spec_function_name(),
    {
        if column != self.active_column {
            self.custom_selection = false;
        }
        self.active_column = column;
    }

    /// Switches editing of the custom fields on or off.
    pub fn toggle_custom(&mut self)
        requires
            old(self).wf(),
        ensures
            final(self).wf(),
            final(self)@ == old(self)@.toggled(),
            final(self).spec_profile_name() == old(self).spec_profile_name(),
            final(self).spec_function_name() == old(self).spec_function_name(),
    {
        if self.active_column == ActiveColumn::CustomRange {
            self.custom_selection = !self.custom_selection;
        }
    }

    /// Moves the focus to the next custom field; at the last nothing
    /// changes.
    pub fn next_field(&mut self)
        requires
            old(self).wf(),
        ensures
            final(self).wf(),
            final(self)@ == old(self)@.field_moved(true),
            final(self).spec_profile_name() == old(self).spec_profile_name(),
            final(self).spec_function_name() == old(self).spec_function_name(),
    {
        if self.current_field + 1 < FIELDS {
            self.current_field = self.current_field + 1;
        }
    }

    /// Moves the focus to the custom field before; at the first nothing
    /// changes.
    pub fn previous_field(&mut self)
        requires
            old(self).wf(),
        ensures
            final(self).wf(),
            final(self)@ == old(self)@.field_moved(false),
            final(self).spec_profile_name() == old(self).spec_profile_name(),
            final(self).spec_function_name() == old(self).spec_function_name(),
    {
        if self.current_field > 0 {
            self.current_field = self.current_field - 1;
        }
    }

    /// Chooses the next quick range, the first after the last.
    pub fn next_quick_range(&mut self)
        requires
            old(self).wf(),
        ensures
            final(self).wf(),
            final(self)@ == old(self)@.quick_cycled(true),
            final(self).spec_profile_name() == old(self).spec_profile_name(),
            final(self).spec_function_name() == old(self).spec_function_name(),
    {
        if self.quick_range + 1 >= QUICK_RANGES {
            self.quick_range = 0;
        } else {
            self.quick_range = self.quick_range + 1;
        }
    }

    /// Chooses the quick range before, the last before the first.
    pub fn previous_quick_range(&mut self)
        requires
            old(self).wf(),
        ensures
            final(self).wf(),
            final(self)@ == old(self)@.quick_cycled(false),
            final(self).spec_profile_name() == old(self).spec_profile_name(),
            final(self).spec_function_name() == old(self).spec_function_name(),
    {
        if self.quick_range == 0 {
            self.quick_range = QUICK_RANGES - 1;
        } else {
            self.quick_range = self.quick_range - 1;
        }
    }

    /// Raises or lowers the focused custom field by one, within its
    /// domain.
    pub fn adjust_current_field(&mut self, increase: bool)
        requires
            old(self).wf(),
        ensures
            final(self).wf(),
            final(self)@ == old(self)@.adjusted(increase),
            final(self).spec_profile_name() == old(self).spec_profile_name(),
            final(self).spec_function_name() == old(self).spec_function_name(),
    {
        proof {
            lemma_range_stays_valid(self@, self@.column, increase);
        }
        if self.current_field == 0 {
            self.from_day = Self::adjusted_value(self.from_day, increase, LAST_DAY);
        } else if self.current_field == 1 {
            self.from_hour = Self::adjusted_value(self.from_hour, increase, LAST_HOUR);
        } else if self.current_field == 2 {
            self.to_day = Self::adjusted_value(self.to_day, increase, LAST_DAY);
        } else {
            self.to_hour = Self::adjusted_value(self.to_hour, increase, LAST_HOUR);
        }
        assert(self@.fields =~= old(self)@.adjusted(increase).fields);
    }

    fn adjusted_value(value: i64, increase: bool, max: i64) -> (r: i64)
        requires
            0 <= value <= max,
        ensures
            r == if increase {
                at_most(value + 1, max as int)
            } else {
                at_least(value - 1, 0)
            },
    {
        if increase {
            if value < max {
                value + 1
            } else {
                max
            }
        } else {
            if value > 0 {
                value - 1
            } else {
                0
            }
        }
    }

    /// Left: to the custom field before where the custom column has the
    /// focus, to the quick range before otherwise; nothing changes at the
    /// first.
    pub fn left(&mut self)
        requires
            old(self).wf(),
        ensures
            final(self).wf(),
            final(self)@ == old(self)@.sideways(false),
            final(self).spec_profile_name() == old(self).spec_profile_name(),
            final(self).spec_function_name() == old(self).spec_function_name(),
    {
        if self.active_column == ActiveColumn::CustomRange {
            self.previous_field();
        } else if self.quick_range > 0 {
            self.quick_range = self.quick_range - 1;
        }
    }

    /// Right: to the next custom field where the custom column has the
    /// focus, to the next quick range otherwise; nothing changes at the
    /// last.
    pub fn right(&mut self)
        requires
            old(self).wf(),
        ensures
            final(self).wf(),
            final(self)@ == old(self)@.sideways(true),
            final(self).spec_profile_name() == old(self).spec_profile_name(),
            final(self).spec_function_name() == old(self).spec_function_name(),
    {
        if self.active_column == ActiveColumn::CustomRange {
            self.next_field();
        } else if self.quick_range + 1 < QUICK_RANGES {
            self.quick_range = self.quick_range + 1;
        }
    }

    /// Up: raises the focused custom field while editing, chooses the quick
    /// range before otherwise.
    pub fn up(&mut self)
        requires
            old(self).wf(),
        ensures
            final(self).wf(),
            final(self)@ == old(self)@.vertical(true),
            final(self).spec_profile_name() == old(self).spec_profile_name(),
            final(self).spec_function_name() == old(self).spec_function_name(),
    {
        if self.custom_selection {
            self.adjust_current_field(true);
        } else {
            self.previous_quick_range();
        }
    }

    /// Down: lowers the focused custom field while editing, chooses the
    /// next quick range otherwise.
    pub fn down(&mut self)
        requires
            old(self).wf(),
        ensures
            final(self).wf(),
            final(self)@ == old(self)@.vertical(false),
            final(self).spec_profile_name() == old(self).spec_profile_name(),
            final(self).spec_function_name() == old(self).spec_function_name(),
    {
        if self.custom_selection {
            self.adjust_current_field(false);
        } else {
            self.next_quick_range();
        }
    }

    /// The range that is chosen at the instant `now`, or the reason why the
    /// custom range cannot be used.
    pub fn resolve(&self, now: i64) -> (r: Result<TimeRange, ValidationError>)
        requires
            self.wf(),
        ensures
            r == self@.resolved(now),
            r matches Ok(range) ==> range.from <= range.to,
    {
        proof {
            lemma_resolved_range_is_ordered(self@, now);
        }
        if self.active_column == ActiveColumn::QuickRanges {
            let span = quick_span_millis(self.quick_range);
            let from: i64 = if now >= i64::MIN + span {
                now - span
            } else {
                i64::MIN
            };
            Ok(TimeRange { from, to: now })
        } else {
            let from: i64 = self.from_day * DAY_MILLIS + self.from_hour * HOUR_MILLIS;
            let to: i64 = self.to_day * DAY_MILLIS + self.to_hour * HOUR_MILLIS;
            if from > to {
                Err(ValidationError::FromAfterTo)
            } else {
                Ok(TimeRange { from, to })
            }
        }
    }
}

} // verus!
