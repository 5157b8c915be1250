//! The navigation controller: the sequence of screens from the choice of a
//! profile to the logs of a function, and the two fetches on the way.
//!
//! The controller does no input or output. It is handed one event at a
//! time and answers with the action that its caller has to perform; the
//! outcome of a fetch comes back as another event. `NavState` is the
//! mathematical model, and `NavState::step` says what every event does;
//! `App` is the executable controller, proved to do what the model says.

use crate::date_selection::{
    lemma_initial_range_is_valid, lemma_range_stays_valid, lemma_resolved_range_is_ordered,
    validation_text, ActiveColumn, DateSelection, RangeState, TimeRange, ValidationError,
};
use crate::entry::LogEntry;
use crate::entry_list::{
    lemma_initial_list_shows_all, lemma_list_stays_valid, lemma_selected_is_kept, EntryList,
    ListState, PAGE_ITEMS,
};
use crate::log_viewer::{
    lemma_empty_filter_shows_all, lemma_moved_stays_in_view, lemma_refiltered_selects_first,
    lemma_scrolled_stays_in_bounds, BrowserState, LogViewer, ScrollOp,
};
use crate::text::{lemma_line_texts_push, line_texts, without_last};
use vstd::prelude::*;

verus! {

/// The screen that is shown.
#[derive(Clone, Copy, Debug, PartialEq, Eq, Structural)]
pub enum AppState {
    ProfileSelection,
    FunctionList,
    DateSelection,
    LogViewer,
}

/// A credential profile.
#[derive(Debug)]
pub struct Profile {
    pub name: String,
    pub region: String,
}

/// A fetch that has been asked for and has not come back.
#[derive(Clone, Copy, Debug, PartialEq, Eq, Structural)]
pub enum Pending {
    /// The functions of the profile at position `profile`.
    Functions { request: u64, profile: usize },
    /// The logs of the chosen function in `range`.
    Logs { request: u64, range: TimeRange },
}

/// What the controller is told.
#[derive(Debug)]
pub enum Event {
    Up,
    Down,
    Left,
    Right,
    PageUp,
    PageDown,
    Confirm,
    Back,
    Quit,
    /// A printable character for the filter that is shown.
    Char(char),
    Backspace,
    ToggleExpand,
    SelectColumn(ActiveColumn),
    ToggleEdit,
    /// The fetch of a function list has ended.
    FunctionsLoaded { request: u64, functions: Result<Vec<String>, String> },
    /// The fetch of the logs has ended.
    LogsLoaded { request: u64, logs: Result<Vec<LogEntry>, String> },
}

/// What the caller has to do after an event.
#[derive(Debug)]
pub enum Action {
    /// Nothing but to draw the screen.
    Continue,
    /// End the program.
    Quit,
    /// Fetch the functions of a profile, and hand the outcome back in
    /// `Event::FunctionsLoaded` with this request number.
    FetchFunctions { request: u64, profile_name: String, region: String },
    /// Fetch the logs of a function for `[from, to)`, and hand the outcome
    /// back in `Event::LogsLoaded` with this request number.
    FetchLogs {
        request: u64,
        profile_name: String,
        region: String,
        function_name: String,
        from: i64,
        to: i64,
    },
}

/// What an action holds.
pub enum ActionView {
    Continue,
    Quit,
    FetchFunctions { request: u64, profile_name: Seq<char>, region: Seq<char> },
    FetchLogs {
        request: u64,
        profile_name: Seq<char>,
        region: Seq<char>,
        function_name: Seq<char>,
        from: i64,
        to: i64,
    },
}

impl View for Action {
    type V = ActionView;

    open spec fn view(&self) -> ActionView {
        match *self {
            Action::Continue => ActionView::Continue,
            Action::Quit => ActionView::Quit,
            Action::FetchFunctions { request, profile_name, region } => ActionView::FetchFunctions {
                request,
                profile_name: profile_name@,
                region: region@,
            },
            Action::FetchLogs {
                request,
                profile_name,
                region,
                function_name,
                from,
                to,
            } => ActionView::FetchLogs {
                request,
                profile_name: profile_name@,
                region: region@,
                function_name: function_name@,
                from,
                to,
            },
        }
    }
}

/// An error that is shown in place; the screen stays.
#[derive(Debug)]
pub enum AppError {
    /// A fetch has failed, with the collaborator's message.
    RemoteFetch(String),
    /// The range cannot be used.
    Validation(ValidationError),
}

/// What an error holds.
pub enum ErrorView {
    RemoteFetch(Seq<char>),
    Validation(ValidationError),
}

impl View for AppError {
    type V = ErrorView;

    open spec fn view(&self) -> ErrorView {
        match *self {
            AppError::RemoteFetch(message) => ErrorView::RemoteFetch(message@),
            AppError::Validation(error) => ErrorView::Validation(error),
        }
    }
}

impl ErrorView {
    /// What is shown for the error: the collaborator's message for a fetch
    /// that failed, the reason for a range that cannot be used.
    pub open spec fn text(self) -> Seq<char> {
        match self {
            ErrorView::RemoteFetch(message) => message,
            ErrorView::Validation(error) => validation_text(error),
        }
    }
}

impl AppError {
    /// What is shown for the error.
    pub fn message(&self) -> (text: String)
        ensures
            text@ == self@.text(),
    {
        match self {
            AppError::RemoteFetch(message) => message.clone(),
            AppError::Validation(error) => error.message().to_owned(),
        }
    }
}

/// The display names of the profiles.
pub open spec fn profile_names(profiles: Seq<Profile>) -> Seq<Seq<char>> {
    Seq::new(profiles.len(), |i: int| profiles[i].name@)
}

/// The request number after `request`.
pub open spec fn request_after(request: u64) -> u64 {
    if request == u64::MAX {
        0
    } else {
        (request + 1) as u64
    }
}

/// What an event does to a list of candidates.
pub open spec fn list_step(list: ListState, event: Event) -> ListState {
    match event {
        Event::Up => list.moved_up(1),
        Event::Down => list.moved_down(1),
        Event::PageUp => list.moved_up(PAGE_ITEMS as nat),
        Event::PageDown => list.moved_down(PAGE_ITEMS as nat),
        Event::Char(c) => list.with_filter(list.filter.push(c)),
        Event::Backspace => list.with_filter(without_last(list.filter)),
        _ => list,
    }
}

/// What an event does to the range selector.
pub open spec fn range_step(range: RangeState, event: Event) -> RangeState {
    match event {
        Event::Left => range.sideways(false),
        Event::Right => range.sideways(true),
        Event::Up => range.vertical(true),
        Event::Down => range.vertical(false),
        Event::SelectColumn(column) => range.with_column(column),
        Event::ToggleEdit => range.toggled(),
        _ => range,
    }
}

/// What an event does to the log browser: up and down scroll the expanded
/// entry and move the cursor in the collapsed list; the filter is edited in
/// the collapsed list only.
pub open spec fn browser_step(browser: BrowserState, event: Event, visible_height: nat)
    -> BrowserState {
    match event {
        Event::Up => if browser.expanded {
            browser.scrolled(ScrollOp::Up)
        } else {
            browser.moved(false, visible_height)
        },
        Event::Down => if browser.expanded {
            browser.scrolled(ScrollOp::Down)
        } else {
            browser.moved(true, visible_height)
        },
        Event::PageUp => browser.scrolled(ScrollOp::PageUp),
        Event::PageDown => browser.scrolled(ScrollOp::PageDown),
        Event::ToggleExpand => browser.toggled(),
        Event::Char(c) => if browser.expanded {
            browser
        } else {
            browser.with_filter(browser.filter.push(c))
        },
        Event::Backspace => if browser.expanded {
            browser
        } else {
            browser.with_filter(without_last(browser.filter))
        },
        _ => browser,
    }
}

/// The state of the controller.
pub struct NavState {
    pub screen: AppState,
    pub profiles: Seq<Profile>,
    pub profile_list: ListState,
    /// The position of the profile whose functions are listed.
    pub chosen_profile: int,
    pub function_list: Option<ListState>,
    /// The function whose range is chosen and whose logs are shown.
    pub function_name: Seq<char>,
    pub range: Option<RangeState>,
    pub browser: Option<BrowserState>,
    pub pending: Option<Pending>,
    /// The number that the next fetch gets.
    pub next_request: u64,
    pub error: Option<ErrorView>,
}

impl NavState {
    /// Each screen has the components that it shows and those of the
    /// screens before it, and no others; a fetch is outstanding only where
    /// it was asked for.
    pub open spec fn valid(self) -> bool {
        &&& self.profile_list.valid()
        &&& self.profile_list.items == profile_names(self.profiles)
        &&& match self.screen {
            AppState::ProfileSelection => {
                &&& self.function_list is None
                &&& self.range is None
                &&& self.browser is None
                &&& self.pending matches Some(pending) ==> pending matches Pending::Functions {
                    profile,
                    ..
                } && profile < self.profiles.len()
            },
            AppState::FunctionList => {
                &&& self.function_list matches Some(list) && list.valid()
                &&& 0 <= self.chosen_profile < self.profiles.len()
                &&& self.range is None
                &&& self.browser is None
                &&& self.pending is None
            },
            AppState::DateSelection => {
                &&& self.function_list matches Some(list) && list.valid()
                &&& 0 <= self.chosen_profile < self.profiles.len()
                &&& self.range matches Some(range) && range.valid()
                &&& self.browser is None
                &&& self.pending matches Some(pending) ==> pending matches Pending::Logs {
                    range,
                    ..
                } && range.from <= range.to
            },
            AppState::LogViewer => {
                &&& self.function_list matches Some(list) && list.valid()
                &&& 0 <= self.chosen_profile < self.profiles.len()
                &&& self.range matches Some(range) && range.valid()
                &&& self.browser matches Some(browser) && browser.valid() && (browser.expanded
                    ==> browser.content_in_bounds())
                &&& self.pending is None
            },
        }
    }

    /// The controller at the start: the profiles are listed.
    pub open spec fn initial(profiles: Seq<Profile>) -> NavState {
        NavState {
            screen: AppState::ProfileSelection,
            profiles,
            profile_list: ListState::initial(profile_names(profiles)),
            chosen_profile: 0,
            function_list: None,
            function_name: seq![],
            range: None,
            browser: None,
            pending: None,
            next_request: 0,
            error: None,
        }
    }

    /// Confirm on the list of profiles: the functions of the highlighted
    /// profile are asked for. The screen stays until they come. On another
    /// screen, or while a fetch is outstanding, nothing happens.
    pub open spec fn profile_confirmed(self) -> (NavState, ActionView) {
        if self.screen == AppState::ProfileSelection && self.pending is None {
            match self.profile_list.selected() {
                Some(i) => (
                    NavState {
                        pending: Some(
                            Pending::Functions { request: self.next_request, profile: i as usize },
                        ),
                        next_request: request_after(self.next_request),
                        error: None,
                        ..self
                    },
                    ActionView::FetchFunctions {
                        request: self.next_request,
                        profile_name: self.profiles[i].name@,
                        region: self.profiles[i].region@,
                    },
                ),
                None => (self, ActionView::Continue),
            }
        } else {
            (self, ActionView::Continue)
        }
    }

    /// The fetch of a function list has ended. An outcome that was not
    /// waited for is dropped; a failure is shown and the screen stays; the
    /// functions are listed otherwise.
    pub open spec fn functions_loaded(self, request: u64, outcome: Result<Vec<String>, String>)
        -> NavState {
        match self.pending {
            Some(Pending::Functions { request: waited, profile }) => if self.screen
                == AppState::ProfileSelection && waited == request {
                match outcome {
                    Ok(names) => NavState {
                        screen: AppState::FunctionList,
                        chosen_profile: profile as int,
                        function_list: Some(ListState::initial(line_texts(names@))),
                        pending: None,
                        error: None,
                        ..self
                    },
                    Err(message) => NavState {
                        pending: None,
                        error: Some(ErrorView::RemoteFetch(message@)),
                        ..self
                    },
                }
            } else {
                self
            },
            _ => self,
        }
    }

    /// Confirm on the list of functions: the highlighted function is taken
    /// and its range selector shown. On another screen nothing happens.
    pub open spec fn function_confirmed(self, now: i64) -> NavState {
        if self.screen == AppState::FunctionList && self.pending is None {
            match self.function_list {
                Some(list) => match list.selected() {
                    Some(i) => NavState {
                        screen: AppState::DateSelection,
                        function_name: list.items[i],
                        range: Some(RangeState::initial(now as int)),
                        error: None,
                        ..self
                    },
                    None => self,
                },
                None => self,
            }
        } else {
            self
        }
    }

    /// Confirm on the range selector: a range that cannot be used is
    /// refused and the reason shown; otherwise the logs are asked for. The
    /// screen stays until they come. On another screen, or while a fetch
    /// is outstanding, nothing happens.
    pub open spec fn range_confirmed(self, now: i64) -> (NavState, ActionView) {
        if self.screen == AppState::DateSelection && self.pending is None {
            match self.range {
                Some(range) => match range.resolved(now) {
                    Ok(resolved) => (
                        NavState {
                            pending: Some(
                                Pending::Logs { request: self.next_request, range: resolved },
                            ),
                            next_request: request_after(self.next_request),
                            error: None,
                            ..self
                        },
                        ActionView::FetchLogs {
                            request: self.next_request,
                            profile_name: self.profiles[self.chosen_profile].name@,
                            region: self.profiles[self.chosen_profile].region@,
                            function_name: self.function_name,
                            from: resolved.from,
                            to: resolved.to,
                        },
                    ),
                    Err(error) => (
                        NavState { error: Some(ErrorView::Validation(error)), ..self },
                        ActionView::Continue,
                    ),
                },
                None => (self, ActionView::Continue),
            }
        } else {
            (self, ActionView::Continue)
        }
    }

    /// The fetch of the logs has ended. An outcome that was not waited for
    /// is dropped; a failure is shown and the screen stays; otherwise a new
    /// browser shows the entries that were fetched.
    pub open spec fn logs_loaded(self, request: u64, outcome: Result<Vec<LogEntry>, String>)
        -> NavState {
        match self.pending {
            Some(Pending::Logs { request: waited, range }) => if self.screen
                == AppState::DateSelection && waited == request {
                match outcome {
                    Ok(entries) => NavState {
                        screen: AppState::LogViewer,
                        browser: Some(
                            BrowserState::initial(self.function_name, range.from, range.to).with_logs(
                                entries@,
                            ),
                        ),
                        pending: None,
                        error: None,
                        ..self
                    },
                    Err(message) => NavState {
                        pending: None,
                        error: Some(ErrorView::RemoteFetch(message@)),
                        ..self
                    },
                }
            } else {
                self
            },
            _ => self,
        }
    }

    /// Back: to the screen before, without the component of the screen
    /// that is left and without the fetch that is outstanding. On the first
    /// screen only the fetch is given up.
    pub open spec fn back(self) -> NavState {
        match self.screen {
            AppState::ProfileSelection => NavState { pending: None, error: None, ..self },
            AppState::FunctionList => NavState {
                screen: AppState::ProfileSelection,
                function_list: None,
                pending: None,
                error: None,
                ..self
            },
            AppState::DateSelection => NavState {
                screen: AppState::FunctionList,
                range: None,
                pending: None,
                error: None,
                ..self
            },
            AppState::LogViewer => NavState {
                screen: AppState::DateSelection,
                browser: None,
                pending: None,
                error: None,
                ..self
            },
        }
    }

    /// An event of the keyboard for the screen that is shown, while no
    /// fetch is outstanding.
    pub open spec fn input(self, event: Event, now: i64, visible_height: nat) -> (
        NavState,
        ActionView,
    ) {
        match self.screen {
            AppState::ProfileSelection => match event {
                Event::Confirm => self.profile_confirmed(),
                _ => (
                    NavState { profile_list: list_step(self.profile_list, event), ..self },
                    ActionView::Continue,
                ),
            },
            AppState::FunctionList => match event {
                Event::Confirm => (self.function_confirmed(now), ActionView::Continue),
                _ => (
                    NavState {
                        function_list: match self.function_list {
                            Some(list) => Some(list_step(list, event)),
                            None => None,
                        },
                        ..self
                    },
                    ActionView::Continue,
                ),
            },
            AppState::DateSelection => match event {
                Event::Confirm => self.range_confirmed(now),
                _ => (
                    NavState {
                        range: match self.range {
                            Some(range) => Some(range_step(range, event)),
                            None => None,
                        },
                        ..self
                    },
                    ActionView::Continue,
                ),
            },
            AppState::LogViewer => (
                NavState {
                    browser: match self.browser {
                        Some(browser) => Some(browser_step(browser, event, visible_height)),
                        None => None,
                    },
                    ..self
                },
                ActionView::Continue,
            ),
        }
    }

    /// What an event does, and what the caller has to do after it. While a
    /// fetch is outstanding the keyboard only quits or goes back.
    pub open spec fn step(self, event: Event, now: i64, visible_height: nat) -> (
        NavState,
        ActionView,
    ) {
        match event {
            Event::Quit => (self, ActionView::Quit),
            Event::Back => (self.back(), ActionView::Continue),
            Event::FunctionsLoaded { request, functions } => (
                self.functions_loaded(request, functions),
                ActionView::Continue,
            ),
            Event::LogsLoaded { request, logs } => (
                self.logs_loaded(request, logs),
                ActionView::Continue,
            ),
            _ => if self.pending is Some {
                (self, ActionView::Continue)
            } else {
                self.input(event, now, visible_height)
            },
        }
    }
}

/// The controller is valid at the start.
pub proof fn lemma_initial_is_valid(profiles: Seq<Profile>)
    ensures
        NavState::initial(profiles).valid(),
{
    lemma_initial_list_shows_all(profile_names(profiles));
}

/// What an event does to a list keeps the list valid.
pub proof fn lemma_list_step_keeps_valid(list: ListState, event: Event)
    requires
        list.valid(),
    ensures
        list_step(list, event).valid(),
{
    lemma_list_stays_valid(list, list.filter, 1);
    lemma_list_stays_valid(list, list.filter, PAGE_ITEMS as nat);
    match event {
        Event::Char(c) => {
            lemma_list_stays_valid(list, list.filter.push(c), 1);
        },
        Event::Backspace => {
            lemma_list_stays_valid(list, without_last(list.filter), 1);
        },
        _ => {},
    }
}

/// What an event does to the range selector keeps the selector valid.
pub proof fn lemma_range_step_keeps_valid(range: RangeState, event: Event)
    requires
        range.valid(),
    ensures
        range_step(range, event).valid(),
{
    lemma_range_stays_valid(range, ActiveColumn::QuickRanges, true);
    lemma_range_stays_valid(range, ActiveColumn::CustomRange, false);
}

/// What an event does to the browser keeps the browser valid, and keeps the
/// content offset of an expanded entry within the entry.
pub proof fn lemma_browser_step_keeps_valid(
    browser: BrowserState,
    event: Event,
    visible_height: nat,
)
    requires
        browser.valid(),
        browser.expanded ==> browser.content_in_bounds(),
    ensures
        browser_step(browser, event, visible_height).valid(),
        browser_step(browser, event, visible_height).expanded ==> browser_step(
            browser,
            event,
            visible_height,
        ).content_in_bounds(),
{
    lemma_moved_stays_in_view(browser, true, visible_height);
    lemma_moved_stays_in_view(browser, false, visible_height);
    match event {
        Event::Char(c) => {
            lemma_refiltered_selects_first(
                BrowserState { filter: browser.filter.push(c), ..browser },
            );
        },
        Event::Backspace => {
            lemma_refiltered_selects_first(
                BrowserState { filter: without_last(browser.filter), ..browser },
            );
        },
        _ => {},
    }
    if browser.expanded {
        lemma_scrolled_stays_in_bounds(browser, ScrollOp::Up);
        lemma_scrolled_stays_in_bounds(browser, ScrollOp::Down);
        lemma_scrolled_stays_in_bounds(browser, ScrollOp::PageUp);
        lemma_scrolled_stays_in_bounds(browser, ScrollOp::PageDown);
    }
}

/// Every event leaves the controller valid: whatever happens, each screen
/// has its components, the cursor and the filtered view of each agree, and
/// an expanded entry is scrolled within its lines.
pub proof fn lemma_step_keeps_valid(state: NavState, event: Event, now: i64, visible_height: nat)
    requires
        state.valid(),
    ensures
        state.step(event, now, visible_height).0.valid(),
{
    lemma_selected_is_kept(state.profile_list);
    match event {
        Event::Quit => {},
        Event::Back => {},
        Event::FunctionsLoaded { request, functions } => {
            match functions {
                Ok(names) => {
                    lemma_initial_list_shows_all(line_texts(names@));
                },
                Err(_) => {},
            }
        },
        Event::LogsLoaded { request, logs } => {
            match logs {
                Ok(entries) => {
                    match state.pending {
                        Some(Pending::Logs { request: waited, range }) => {
                            lemma_refiltered_selects_first(
                                BrowserState {
                                    logs: entries@,
                                    ..BrowserState::initial(
                                        state.function_name,
                                        range.from,
                                        range.to,
                                    )
                                },
                            );
                        },
                        _ => {},
                    }
                },
                Err(_) => {},
            }
        },
        _ => {
            if state.pending is None {
                match state.screen {
                    AppState::ProfileSelection => {
                        lemma_list_step_keeps_valid(state.profile_list, event);
                    },
                    AppState::FunctionList => {
                        lemma_list_step_keeps_valid(state.function_list->0, event);
                        lemma_initial_range_is_valid(now as int);
                    },
                    AppState::DateSelection => {
                        lemma_range_step_keeps_valid(state.range->0, event);
                        lemma_resolved_range_is_ordered(state.range->0, now);
                    },
                    AppState::LogViewer => {
                        lemma_browser_step_keeps_valid(state.browser->0, event, visible_height);
                    },
                }
            }
        },
    }
}

/// Whether an event is the outcome of the fetch that is waited for.
pub open spec fn is_awaited(state: NavState, event: Event) -> bool {
    match event {
        Event::FunctionsLoaded { request, .. } => {
            &&& state.screen == AppState::ProfileSelection
            &&& state.pending matches Some(Pending::Functions { request: waited, .. })
            &&& waited == request
        },
        Event::LogsLoaded { request, .. } => {
            &&& state.screen == AppState::DateSelection
            &&& state.pending matches Some(Pending::Logs { request: waited, .. })
            &&& waited == request
        },
        _ => false,
    }
}

/// Whether an event is the outcome of a fetch.
pub open spec fn is_outcome(event: Event) -> bool {
    event is FunctionsLoaded || event is LogsLoaded
}

/// Whether an event is the outcome of a fetch that failed, and with which
/// message.
pub open spec fn failure_of(event: Event) -> Option<Seq<char>> {
    match event {
        Event::FunctionsLoaded { functions: Err(message), .. } => Some(message@),
        Event::LogsLoaded { logs: Err(message), .. } => Some(message@),
        _ => None,
    }
}

/// The outcome of a fetch that is not waited for changes nothing: not one
/// that comes after the user has gone back, and not one with another
/// request number.
pub proof fn lemma_stale_outcome_is_dropped(
    state: NavState,
    event: Event,
    now: i64,
    visible_height: nat,
)
    requires
        is_outcome(event),
        !is_awaited(state, event),
    ensures
        state.step(event, now, visible_height) == (state, ActionView::Continue),
{
}

/// A fetch that fails leaves the screen and every component as they were:
/// only the error is shown, and nothing is waited for any more.
pub proof fn lemma_failed_fetch_keeps_the_screen(
    state: NavState,
    event: Event,
    now: i64,
    visible_height: nat,
)
    requires
        is_awaited(state, event),
        failure_of(event) is Some,
    ensures
        state.step(event, now, visible_height) == (
            NavState {
                pending: None,
                error: Some(ErrorView::RemoteFetch(failure_of(event)->0)),
                ..state
            },
            ActionView::Continue,
        ),
{
}

/// While a fetch is outstanding the keyboard changes nothing, except to
/// quit and to go back.
pub proof fn lemma_loading_holds_input(state: NavState, event: Event, now: i64, visible_height: nat)
    requires
        state.pending is Some,
        !is_outcome(event),
        !(event is Back),
        !(event is Quit),
    ensures
        state.step(event, now, visible_height) == (state, ActionView::Continue),
{
}

/// Going back gives up the outstanding fetch: whatever comes back
/// afterwards is dropped.
pub proof fn lemma_back_gives_up_the_fetch(
    state: NavState,
    outcome: Event,
    now: i64,
    visible_height: nat,
)
    requires
        state.valid(),
        is_outcome(outcome),
    ensures
        state.back().pending is None,
        state.back().step(outcome, now, visible_height) == (state.back(), ActionView::Continue),
{
}

/// A range that cannot be used blocks the way forward: the screen stays,
/// nothing is fetched, and the reason is shown.
pub proof fn lemma_invalid_range_blocks(state: NavState, now: i64, visible_height: nat)
    requires
        state.valid(),
        state.screen == AppState::DateSelection,
        state.pending is None,
        state.range->0.resolved(now) is Err,
    ensures
        state.step(Event::Confirm, now, visible_height) == (
            NavState {
                error: Some(ErrorView::Validation(state.range->0.resolved(now)->Err_0)),
                ..state
            },
            ActionView::Continue,
        ),
{
}

/// Back from the logs and forward again fetches afresh. Back leaves the
/// range selector without a browser; confirm there, for a range that can be
/// used, asks for the logs under a new request number and shows no logs
/// meanwhile; and the browser that the outcome brings holds the entries of
/// that outcome and no others.
pub proof fn lemma_back_and_forward_fetches_afresh(
    state: NavState,
    now: i64,
    visible_height: nat,
    entries: Vec<LogEntry>,
)
    requires
        state.valid(),
        state.screen == AppState::LogViewer,
    ensures
        ({
            let left = state.step(Event::Back, now, visible_height).0;
            let (asked, action) = left.step(Event::Confirm, now, visible_height);
            let shown = asked.step(
                Event::LogsLoaded { request: state.next_request, logs: Ok(entries) },
                now,
                visible_height,
            ).0;
            &&& left.screen == AppState::DateSelection
            &&& left.browser is None
            &&& left.range == state.range
            &&& left.range->0.resolved(now) matches Ok(range) ==> {
                &&& action == (ActionView::FetchLogs {
                    request: state.next_request,
                    profile_name: state.profiles[state.chosen_profile].name@,
                    region: state.profiles[state.chosen_profile].region@,
                    function_name: state.function_name,
                    from: range.from,
                    to: range.to,
                })
                &&& asked.screen == AppState::DateSelection
                &&& asked.browser is None
                &&& asked.pending == Some(Pending::Logs { request: state.next_request, range })
                &&& shown.screen == AppState::LogViewer
                &&& shown.browser == Some(
                    BrowserState::initial(state.function_name, range.from, range.to).with_logs(
                        entries@,
                    ),
                )
                &&& shown.browser->0.logs == entries@
                &&& shown.browser->0.filtered_view() == entries@
                &&& shown.browser->0.filter == Seq::<char>::empty()
                &&& !shown.browser->0.expanded
                &&& shown.browser->0.selected == if entries@.len() == 0 {
                    None
                } else {
                    Some(0int)
                }
                &&& shown.pending is None
            }
        }),
{
    let left = state.step(Event::Back, now, visible_height).0;
    let asked = left.step(Event::Confirm, now, visible_height).0;
    let shown = asked.step(
        Event::LogsLoaded { request: state.next_request, logs: Ok(entries) },
        now,
        visible_height,
    ).0;
    lemma_step_keeps_valid(state, Event::Back, now, visible_height);
    lemma_step_keeps_valid(left, Event::Confirm, now, visible_height);
    lemma_step_keeps_valid(
        asked,
        Event::LogsLoaded { request: state.next_request, logs: Ok(entries) },
        now,
        visible_height,
    );
    if left.range->0.resolved(now) is Ok {
        lemma_empty_filter_shows_all(shown.browser->0);
    }
}

/// Confirm on the range selector and the outcome of the fetch that it asks
/// for: one fetch is asked for, for the chosen function and the resolved
/// range and under a new request number; no browser exists until its
/// outcome has come; and the browser that the outcome brings is new, with
/// the fetched entries as its log collection, no filter, the cursor at the
/// first entry, and expand mode off.
pub proof fn lemma_confirmed_range_shows_fetched_logs(
    state: NavState,
    now: i64,
    entries: Vec<LogEntry>,
)
    requires
        state.valid(),
        state.screen == AppState::DateSelection,
        state.pending is None,
        state.range->0.resolved(now) is Ok,
    ensures
        ({
            let range = state.range->0.resolved(now)->Ok_0;
            let (asked, action) = state.range_confirmed(now);
            let shown = asked.logs_loaded(state.next_request, Ok(entries));
            &&& action == (ActionView::FetchLogs {
                request: state.next_request,
                profile_name: state.profiles[state.chosen_profile].name@,
                region: state.profiles[state.chosen_profile].region@,
                function_name: state.function_name,
                from: range.from,
                to: range.to,
            })
            &&& asked == (NavState {
                pending: Some(Pending::Logs { request: state.next_request, range }),
                next_request: request_after(state.next_request),
                error: None,
                ..state
            })
            &&& asked.browser is None
            &&& asked.range_confirmed(now) == (asked, ActionView::Continue)
            &&& shown.screen == AppState::LogViewer
            &&& shown.pending is None
            &&& shown.browser == Some(
                BrowserState::initial(state.function_name, range.from, range.to).with_logs(
                    entries@,
                ),
            )
            &&& shown.browser->0.logs == entries@
            &&& shown.browser->0.filtered_view() == entries@
            &&& shown.browser->0.filter == Seq::<char>::empty()
            &&& !shown.browser->0.expanded
        }),
{
    let asked = state.range_confirmed(now).0;
    let shown = asked.logs_loaded(state.next_request, Ok(entries));
    lemma_step_keeps_valid(state, Event::Confirm, now, 0);
    lemma_step_keeps_valid(asked, Event::LogsLoaded { request: state.next_request, logs: Ok(entries) }, now, 0);
    lemma_empty_filter_shows_all(shown.browser->0);
}

/// The log browser is reached in one way only: by the outcome of the fetch
/// that is waited for, and then it shows the entries of that outcome.
pub proof fn lemma_browser_shows_what_was_fetched(
    state: NavState,
    event: Event,
    now: i64,
    visible_height: nat,
)
    requires
        state.valid(),
        state.screen != AppState::LogViewer,
        state.step(event, now, visible_height).0.screen == AppState::LogViewer,
    ensures
        is_awaited(state, event),
        event matches Event::LogsLoaded { logs: Ok(entries), .. } && state.step(
            event,
            now,
            visible_height,
        ).0.browser matches Some(browser) && browser.logs == entries@,
{
}

/// What a list holds, where there is one.
pub open spec fn list_model(held: Option<EntryList>) -> Option<ListState> {
    match held {
        Some(list) => Some(list@),
        None => None,
    }
}

/// What a range selector holds, where there is one.
pub open spec fn range_model(held: Option<DateSelection>) -> Option<RangeState> {
    match held {
        Some(selection) => Some(selection@),
        None => None,
    }
}

/// What a browser holds, where there is one.
pub open spec fn browser_model(held: Option<LogViewer>) -> Option<BrowserState> {
    match held {
        Some(viewer) => Some(viewer@),
        None => None,
    }
}

/// What an error holds, where there is one.
pub open spec fn error_model(held: Option<AppError>) -> Option<ErrorView> {
    match held {
        Some(error) => Some(error@),
        None => None,
    }
}

fn list_input(list: &mut EntryList, event: &Event)
    requires
        old(list).wf(),
    ensures
        final(list).wf(),
        final(list)@ == list_step(old(list)@, *event),
{
    match event {
        Event::Up => list.previous(),
        Event::Down => list.next(),
        Event::PageUp => list.page_up(),
        Event::PageDown => list.page_down(),
        Event::Char(c) => list.push_filter_char(*c),
        Event::Backspace => list.pop_filter_char(),
        _ => {},
    }
}

fn range_input(selection: &mut DateSelection, event: &Event)
    requires
        old(selection).wf(),
    ensures
        final(selection).wf(),
        final(selection)@ == range_step(old(selection)@, *event),
{
    match event {
        Event::Left => selection.left(),
        Event::Right => selection.right(),
        Event::Up => selection.up(),
        Event::Down => selection.down(),
        Event::SelectColumn(column) => selection.select_column(*column),
        Event::ToggleEdit => selection.toggle_custom(),
        _ => {},
    }
}

fn browser_input(viewer: &mut LogViewer, event: &Event, visible_height: usize)
    requires
        old(viewer).wf(),
    ensures
        final(viewer).wf(),
        final(viewer)@ == browser_step(old(viewer)@, *event, visible_height as nat),
{
    match event {
        Event::Up => {
            if viewer.expanded() {
                viewer.scroll_up();
            } else {
                viewer.move_selection(-1, visible_height);
            }
        },
        Event::Down => {
            if viewer.expanded() {
                viewer.scroll_down();
            } else {
                viewer.move_selection(1, visible_height);
            }
        },
        Event::PageUp => viewer.page_up(),
        Event::PageDown => viewer.page_down(),
        Event::ToggleExpand => viewer.toggle_expand(),
        Event::Char(c) => {
            if !viewer.expanded() {
                viewer.push_filter_char(*c);
            }
        },
        Event::Backspace => {
            if !viewer.expanded() {
                viewer.pop_filter_char();
            }
        },
        _ => {},
    }
}

/// The navigation controller.
#[derive(Debug)]
pub struct App {
    state: AppState,
    profiles: Vec<Profile>,
    profile_selection: EntryList,
    chosen_profile: usize,
    function_selection: Option<EntryList>,
    function_name: String,
    date_selection: Option<DateSelection>,
    log_viewer: Option<LogViewer>,
    pending: Option<Pending>,
    next_request: u64,
    error: Option<AppError>,
}

impl View for App {
    type V = NavState;

    closed spec fn view(&self) -> NavState {
        NavState {
            screen: self.state,
            profiles: self.profiles@,
            profile_list: self.profile_selection@,
            chosen_profile: self.chosen_profile as int,
            function_list: list_model(self.function_selection),
            function_name: self.function_name@,
            range: range_model(self.date_selection),
            browser: browser_model(self.log_viewer),
            pending: self.pending,
            next_request: self.next_request,
            error: error_model(self.error),
        }
    }
}

impl App {
    /// The controller's state is valid.
    pub open spec fn wf(&self) -> bool {
        self@.valid()
    }

    /// A controller that lists the given profiles.
    pub fn new(profiles: Vec<Profile>) -> (app: App)
        ensures
            app.wf(),
            app@ == NavState::initial(profiles@),
    {
        let mut names: Vec<String> = Vec::new();
        let mut i: usize = 0;
        while i < profiles.len()
            invariant
                i <= profiles.len(),
                line_texts(names@) == profile_names(profiles@).take(i as int),
            decreases profiles.len() - i,
        {
            let name = profiles[i].name.clone();
            proof {
                lemma_line_texts_push(names@, name);
            }
            names.push(name);
            i += 1;
        }
        assert(line_texts(names@) =~= profile_names(profiles@));
        proof {
            lemma_initial_is_valid(profiles@);
        }
        App {
            state: AppState::ProfileSelection,
            profiles,
            profile_selection: EntryList::new(names),
            chosen_profile: 0,
            function_selection: None,
            function_name: String::new(),
            date_selection: None,
            log_viewer: None,
            pending: None,
            next_request: 0,
            error: None,
        }
    }

    /// Takes the number of the next fetch.
    fn next_request_number(&mut self) -> (request: u64)
        ensures
            request == old(self)@.next_request,
            final(self)@ == (NavState { next_request: request_after(request), ..old(self)@ }),
    {
        let request: u64 = self.next_request;
        self.next_request = if request == u64::MAX {
            0
        } else {
            request + 1
        };
        request
    }

    /// Confirm on the list of profiles: asks for the functions of the
    /// highlighted profile. The answer is the fetch to perform; its outcome
    /// is handed to `functions_loaded`.
    pub fn select_profile(&mut self) -> (action: Action)
        requires
            old(self).wf(),
        ensures
            final(self).wf(),
            (final(self)@, action@) == old(self)@.profile_confirmed(),
    {
        proof {
            lemma_step_keeps_valid(self@, Event::Confirm, 0, 0);
        }
        if self.state != AppState::ProfileSelection || self.pending.is_some() {
            return Action::Continue;
        }
        match self.profile_selection.selected_index() {
            Some(i) => {
                let request = self.next_request_number();
                self.pending = Some(Pending::Functions { request, profile: i });
                self.error = None;
                Action::FetchFunctions {
                    request,
                    profile_name: self.profiles[i].name.clone(),
                    region: self.profiles[i].region.clone(),
                }
            },
            None => Action::Continue,
        }
    }

    /// Confirm on the list of functions: takes the highlighted function and
    /// shows its range selector, as it is first shown at the instant `now`.
    pub fn enter_date_selection(&mut self, now: i64)
        requires
            old(self).wf(),
        ensures
            final(self).wf(),
            final(self)@ == old(self)@.function_confirmed(now),
    {
        proof {
            lemma_step_keeps_valid(self@, Event::Confirm, now, 0);
        }
        if self.state != AppState::FunctionList || self.pending.is_some() {
            return;
        }
        let chosen: Option<String> = match &self.function_selection {
            Some(list) => match list.selected() {
                Some(name) => Some(name.clone()),
                None => None,
            },
            None => None,
        };
        match chosen {
            Some(name) => {
                let profile_name = self.profiles[self.chosen_profile].name.clone();
                self.date_selection = Some(DateSelection::new(profile_name, name.clone(), now));
                self.function_name = name;
                self.state = AppState::DateSelection;
                self.error = None;
            },
            None => {},
        }
    }

    /// Confirm on the range selector: asks for the logs of the chosen
    /// function in the range that is chosen at the instant `now`, or shows
    /// why the range cannot be used. The answer is the fetch to perform;
    /// its outcome is handed to `logs_loaded`. No browser is shown, and
    /// none is kept, until the outcome has come.
    pub fn enter_log_viewer(&mut self, now: i64) -> (action: Action)
        requires
            old(self).wf(),
        ensures
            final(self).wf(),
            (final(self)@, action@) == old(self)@.range_confirmed(now),
    {
        proof {
            lemma_step_keeps_valid(self@, Event::Confirm, now, 0);
        }
        if self.state != AppState::DateSelection || self.pending.is_some() {
            return Action::Continue;
        }
        let resolved = match &self.date_selection {
            Some(selection) => selection.resolve(now),
            None => Err(ValidationError::FromAfterTo),
        };
        match resolved {
            Ok(range) => {
                let request = self.next_request_number();
                self.pending = Some(Pending::Logs { request, range });
                self.error = None;
                Action::FetchLogs {
                    request,
                    profile_name: self.profiles[self.chosen_profile].name.clone(),
                    region: self.profiles[self.chosen_profile].region.clone(),
                    function_name: self.function_name.clone(),
                    from: range.from,
                    to: range.to,
                }
            },
            Err(error) => {
                self.error = Some(AppError::Validation(error));
                Action::Continue
            },
        }
    }

    /// Takes the outcome of the fetch of a function list: lists the
    /// functions, or shows the failure and stays; an outcome that is not
    /// waited for is dropped.
    pub fn functions_loaded(&mut self, request: u64, functions: Result<Vec<String>, String>)
        requires
            old(self).wf(),
        ensures
            final(self).wf(),
            final(self)@ == old(self)@.functions_loaded(request, functions),
    {
        proof {
            lemma_step_keeps_valid(self@, Event::FunctionsLoaded { request, functions }, 0, 0);
        }
        match self.pending {
            Some(Pending::Functions { request: waited, profile }) => {
                if self.state == AppState::ProfileSelection && waited == request {
                    match functions {
                        Ok(names) => {
                            self.function_selection = Some(EntryList::new(names));
                            self.chosen_profile = profile;
                            self.state = AppState::FunctionList;
                            self.pending = None;
                            self.error = None;
                        },
                        Err(message) => {
                            self.pending = None;
                            self.error = Some(AppError::RemoteFetch(message));
                        },
                    }
                }
            },
            _ => {},
        }
    }

    /// Takes the outcome of the fetch of the logs: a new browser shows the
    /// entries that were fetched, or the failure is shown and the range
    /// selector stays; an outcome that is not waited for is dropped.
    pub fn logs_loaded(&mut self, request: u64, logs: Result<Vec<LogEntry>, String>)
        requires
            old(self).wf(),
        ensures
            final(self).wf(),
            final(self)@ == old(self)@.logs_loaded(request, logs),
    {
        proof {
            lemma_step_keeps_valid(self@, Event::LogsLoaded { request, logs }, 0, 0);
        }
        match self.pending {
            Some(Pending::Logs { request: waited, range }) => {
                if self.state == AppState::DateSelection && waited == request {
                    match logs {
                        Ok(entries) => {
                            let mut viewer = LogViewer::new(
                                self.function_name.clone(),
                                range.from,
                                range.to,
                            );
                            viewer.initialize(entries);
                            self.log_viewer = Some(viewer);
                            self.state = AppState::LogViewer;
                            self.pending = None;
                            self.error = None;
                        },
                        Err(message) => {
                            self.pending = None;
                            self.error = Some(AppError::RemoteFetch(message));
                        },
                    }
                }
            },
            _ => {},
        }
    }

    /// Back: to the screen before, without the component of the screen
    /// that is left and without the fetch that is outstanding.
    pub fn back(&mut self)
        requires
            old(self).wf(),
        ensures
            final(self).wf(),
            final(self)@ == old(self)@.back(),
    {
        proof {
            lemma_step_keeps_valid(self@, Event::Back, 0, 0);
        }
        match self.state {
            AppState::ProfileSelection => {},
            AppState::FunctionList => {
                self.state = AppState::ProfileSelection;
                self.function_selection = None;
            },
            AppState::DateSelection => {
                self.state = AppState::FunctionList;
                self.date_selection = None;
            },
            AppState::LogViewer => {
                self.state = AppState::DateSelection;
                self.log_viewer = None;
            },
        }
        self.pending = None;
        self.error = None;
    }

    /// An event of the keyboard for the screen that is shown.
    fn input(&mut self, event: Event, now: i64, visible_height: usize) -> (action: Action)
        requires
            old(self).wf(),
        ensures
            (final(self)@, action@) == old(self)@.input(event, now, visible_height as nat),
    {
        match self.state {
            AppState::ProfileSelection => match event {
                Event::Confirm => self.select_profile(),
                _ => {
                    list_input(&mut self.profile_selection, &event);
                    Action::Continue
                },
            },
            AppState::FunctionList => match event {
                Event::Confirm => {
                    self.enter_date_selection(now);
                    Action::Continue
                },
                _ => {
                    let held = self.function_selection.take();
                    let mut list = held.unwrap();
                    list_input(&mut list, &event);
                    self.function_selection = Some(list);
                    Action::Continue
                },
            },
            AppState::DateSelection => match event {
                Event::Confirm => self.enter_log_viewer(now),
                _ => {
                    let held = self.date_selection.take();
                    let mut selection = held.unwrap();
                    range_input(&mut selection, &event);
                    self.date_selection = Some(selection);
                    Action::Continue
                },
            },
            AppState::LogViewer => {
                let held = self.log_viewer.take();
                let mut viewer = held.unwrap();
                browser_input(&mut viewer, &event, visible_height);
                self.log_viewer = Some(viewer);
                Action::Continue
            },
        }
    }

    /// Takes one event and says what the caller has to do after it. `now`
    /// is the instant of the event in epoch milliseconds, `visible_height`
    /// the number of rows in which the log list is drawn.
    pub fn handle(&mut self, event: Event, now: i64, visible_height: usize) -> (action: Action)
        requires
            old(self).wf(),
        ensures
            final(self).wf(),
            (final(self)@, action@) == old(self)@.step(event, now, visible_height as nat),
    {
        proof {
            lemma_step_keeps_valid(self@, event, now, visible_height as nat);
        }
        match event {
            Event::Quit => Action::Quit,
            Event::Back => {
                self.back();
                Action::Continue
            },
            Event::FunctionsLoaded { request, functions } => {
                self.functions_loaded(request, functions);
                Action::Continue
            },
            Event::LogsLoaded { request, logs } => {
                self.logs_loaded(request, logs);
                Action::Continue
            },
            other => {
                if self.pending.is_some() {
                    Action::Continue
                } else {
                    self.input(other, now, visible_height)
                }
            },
        }
    }

    /// The screen that is shown.
    pub fn state(&self) -> (r: AppState)
        ensures
            r == self@.screen,
    {
        self.state
    }

    /// Whether a fetch is outstanding.
    pub fn is_loading(&self) -> (r: bool)
        ensures
            r == (self@.pending is Some),
    {
        self.pending.is_some()
    }

    /// The fetch that is outstanding.
    pub fn pending(&self) -> (r: Option<Pending>)
        ensures
            r == self@.pending,
    {
        self.pending
    }

    /// The error to show.
    pub fn error(&self) -> (r: Option<&AppError>)
        ensures
            match r {
                Some(error) => self@.error == Some(error@),
                None => self@.error is None,
            },
    {
        self.error.as_ref()
    }

    /// The profiles.
    pub fn profiles(&self) -> (r: &Vec<Profile>)
        ensures
            r@ == self@.profiles,
    {
        &self.profiles
    }

    /// The list of profiles.
    pub fn profile_selection(&self) -> (r: &EntryList)
        ensures
            r@ == self@.profile_list,
    {
        &self.profile_selection
    }

    /// The list of functions, on the screens that have one.
    pub fn function_selection(&self) -> (r: Option<&EntryList>)
        ensures
            match r {
                Some(list) => self@.function_list == Some(list@),
                None => self@.function_list is None,
            },
    {
        self.function_selection.as_ref()
    }

    /// The range selector, on the screens that have one.
    pub fn date_selection(&self) -> (r: Option<&DateSelection>)
        ensures
            match r {
                Some(selection) => self@.range == Some(selection@),
                None => self@.range is None,
            },
    {
        self.date_selection.as_ref()
    }

    /// The log browser, on the screen that has one.
    pub fn log_viewer(&self) -> (r: Option<&LogViewer>)
        ensures
            match r {
                Some(viewer) => self@.browser == Some(viewer@),
                None => self@.browser is None,
            },
    {
        self.log_viewer.as_ref()
    }
}

} // verus!
