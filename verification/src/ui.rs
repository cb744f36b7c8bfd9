//! The state machines behind the search window: what typing, the arrow
//! keys, Enter, Escape and window events do to the query, the results, the
//! selection and the window's visibility. Drawing stays with the caller.

use crate::search::SearchResult;
use crate::text::{chars_of, owned, push_char};
use vstd::prelude::*;

verus! {

/// Requests to show, hide or toggle the search window, or to quit.
#[derive(Debug, Clone)]
pub enum WindowEvent {
    Show,
    Hide,
    Toggle,
    Quit,
}

/// What the window system must be told after a window event.
#[derive(Debug)]
pub enum ViewportAction {
    /// Make the window visible and give it the keyboard focus.
    ShowAndFocus,
    /// Hide the window.
    Hide,
    /// End the application.
    Exit,
}

/// Visibility after `event`: shown, hidden, flipped, or (on quit) unchanged.
pub open spec fn visibility_after(visible: bool, event: WindowEvent) -> bool {
    match event {
        WindowEvent::Show => true,
        WindowEvent::Hide => false,
        WindowEvent::Toggle => !visible,
        WindowEvent::Quit => visible,
    }
}

/// The visibility after `event` and what to tell the window system: quit
/// ends the application; otherwise a window that ends up visible is shown
/// and focused, one that ends up hidden is hidden.
pub fn window_transition(visible: bool, event: &WindowEvent) -> (r: (bool, ViewportAction))
    ensures
        r.0 == visibility_after(visible, *event),
        *event is Quit ==> r.1 is Exit,
        !(*event is Quit) && r.0 ==> r.1 is ShowAndFocus,
        !(*event is Quit) && !r.0 ==> r.1 is Hide,
{
    match event {
        WindowEvent::Show => (true, ViewportAction::ShowAndFocus),
        WindowEvent::Hide => (false, ViewportAction::Hide),
        WindowEvent::Toggle => {
            if visible { (false, ViewportAction::Hide) } else { (true, ViewportAction::ShowAndFocus) }
        },
        WindowEvent::Quit => (visible, ViewportAction::Exit),
    }
}

/// Arrow down in the first two windows: one further, unless already on the
/// last result (or there are none).
pub open spec fn next_saturating(selected: usize, len: usize) -> usize {
    if len > 0 && selected < len - 1 { (selected + 1) as usize } else { selected }
}

/// Arrow down in the launcher window: one further, at most to the last result.
pub open spec fn next_clamped(selected: usize, len: usize) -> usize {
    if len == 0 { selected }
    else if selected + 1 <= len - 1 { (selected + 1) as usize }
    else { (len - 1) as usize }
}

/// Arrow up: one back, not below the first.
pub open spec fn previous(selected: usize) -> usize {
    if selected > 0 { (selected - 1) as usize } else { 0 }
}

fn step_saturating(selected: usize, len: usize) -> (r: usize)
    ensures
        r == next_saturating(selected, len),
{
    if len > 0 && selected < len - 1 { selected + 1 } else { selected }
}

fn step_clamped(selected: usize, len: usize) -> (r: usize)
    ensures
        r == next_clamped(selected, len),
{
    if len == 0 { selected } else if selected < len - 1 { selected + 1 } else { len - 1 }
}

fn step_back(selected: usize) -> (r: usize)
    ensures
        r == previous(selected),
{
    if selected > 0 { selected - 1 } else { 0 }
}

/// The path of result `index`, if there is one.
fn path_at(results: &Vec<SearchResult>, index: usize) -> (r: Option<String>)
    ensures
        match r {
            Some(p) => index < results@.len() && p@ == results@[index as int].path@,
            None => index >= results@.len(),
        },
{
    if index < results.len() {
        Some(results[index].path.clone())
    } else {
        None
    }
}

/// The state of the first search window: a centred panel with a search
/// field and a result list.
pub struct SearchPanel {
    pub query: String,
    pub results: Vec<SearchResult>,
    pub selected_index: usize,
    pub is_searching: bool,
    pub show_window: bool,
}

impl SearchPanel {
    /// Visible, with an empty query and no results.
    pub fn new() -> (r: SearchPanel)
        ensures
            r.query@.len() == 0,
            r.results@.len() == 0,
            r.selected_index == 0,
            !r.is_searching,
            r.show_window,
    {
        SearchPanel {
            query: String::new(),
            results: Vec::new(),
            selected_index: 0,
            is_searching: false,
            show_window: true,
        }
    }

    /// Shows or hides the window; hiding also clears the search.
    pub fn toggle_window(&mut self)
        ensures
            final(self).show_window == !old(self).show_window,
            final(self).is_searching == old(self).is_searching,
            final(self).show_window ==> final(self).query == old(self).query
                && final(self).results == old(self).results
                && final(self).selected_index == old(self).selected_index,
            !final(self).show_window ==> final(self).query@.len() == 0
                && final(self).results@.len() == 0
                && final(self).selected_index == 0,
    {
        self.show_window = !self.show_window;
        if !self.show_window {
            self.clear_search();
        }
    }

    /// Empties the query and the results and selects the first entry.
    pub fn clear_search(&mut self)
        ensures
            final(self).query@.len() == 0,
            final(self).results@.len() == 0,
            final(self).selected_index == 0,
            final(self).is_searching == old(self).is_searching,
            final(self).show_window == old(self).show_window,
    {
        self.query = String::new();
        self.results.clear();
        self.selected_index = 0;
    }

    /// After the query changed: an empty query clears the results and stops
    /// searching; any other query is returned to be searched, and the panel
    /// waits for its results.
    pub fn perform_search(&mut self) -> (r: Option<String>)
        ensures
            final(self).query == old(self).query,
            final(self).selected_index == old(self).selected_index,
            final(self).show_window == old(self).show_window,
            old(self).query@.len() == 0 ==> r is None && final(self).results@.len() == 0 && !final(self).is_searching,
            old(self).query@.len() > 0 ==> (r matches Some(q) && q@ == old(self).query@)
                && final(self).results == old(self).results && final(self).is_searching,
    {
        if self.query.as_str().is_empty() {
            self.results.clear();
            self.is_searching = false;
            return None;
        }
        self.is_searching = true;
        Some(self.query.clone())
    }

    /// Results arrived: show them, stop waiting, select the first.
    pub fn receive_results(&mut self, results: Vec<SearchResult>)
        ensures
            final(self).results == results,
            !final(self).is_searching,
            final(self).selected_index == 0,
            final(self).query == old(self).query,
            final(self).show_window == old(self).show_window,
    {
        self.results = results;
        self.is_searching = false;
        self.selected_index = 0;
    }

    /// Arrow down.
    pub fn select_next(&mut self)
        ensures
            final(self).selected_index == next_saturating(old(self).selected_index, old(self).results@.len() as usize),
            final(self).query == old(self).query,
            final(self).results == old(self).results,
            final(self).is_searching == old(self).is_searching,
            final(self).show_window == old(self).show_window,
    {
        self.selected_index = step_saturating(self.selected_index, self.results.len());
    }

    /// Arrow up.
    pub fn select_previous(&mut self)
        ensures
            final(self).selected_index == previous(old(self).selected_index),
            final(self).query == old(self).query,
            final(self).results == old(self).results,
            final(self).is_searching == old(self).is_searching,
            final(self).show_window == old(self).show_window,
    {
        self.selected_index = step_back(self.selected_index);
    }

    /// A click on result `index` selects it.
    pub fn select(&mut self, index: usize)
        ensures
            final(self).selected_index == index,
            final(self).query == old(self).query,
            final(self).results == old(self).results,
            final(self).is_searching == old(self).is_searching,
            final(self).show_window == old(self).show_window,
    {
        self.selected_index = index;
    }

    /// Enter: the selected result's path, to be opened; the window then
    /// toggles (which hides and clears it when it was shown). Nothing
    /// happens when no result is selected.
    pub fn open_selected(&mut self) -> (r: Option<String>)
        ensures
            old(self).selected_index < old(self).results@.len() ==> (r matches Some(p)
                && p@ == old(self).results@[old(self).selected_index as int].path@
                && final(self).show_window == !old(self).show_window
                && final(self).is_searching == old(self).is_searching),
            old(self).selected_index < old(self).results@.len() && old(self).show_window ==>
                final(self).query@.len() == 0 && final(self).results@.len() == 0 && final(self).selected_index == 0,
            old(self).selected_index < old(self).results@.len() && !old(self).show_window ==>
                final(self).query == old(self).query && final(self).results == old(self).results
                && final(self).selected_index == old(self).selected_index,
            old(self).selected_index >= old(self).results@.len() ==> r is None && *final(self) == *old(self),
    {
        let path = path_at(&self.results, self.selected_index);
        if path.is_some() {
            self.toggle_window();
        }
        path
    }

    /// Ctrl+L: the selected result's path, whose folder is to be opened; the
    /// window then toggles as for Enter.
    pub fn open_location(&mut self) -> (r: Option<String>)
        ensures
            old(self).selected_index < old(self).results@.len() ==> (r matches Some(p)
                && p@ == old(self).results@[old(self).selected_index as int].path@
                && final(self).show_window == !old(self).show_window
                && final(self).is_searching == old(self).is_searching),
            old(self).selected_index < old(self).results@.len() && old(self).show_window ==>
                final(self).query@.len() == 0 && final(self).results@.len() == 0 && final(self).selected_index == 0,
            old(self).selected_index < old(self).results@.len() && !old(self).show_window ==>
                final(self).query == old(self).query && final(self).results == old(self).results
                && final(self).selected_index == old(self).selected_index,
            old(self).selected_index >= old(self).results@.len() ==> r is None && *final(self) == *old(self),
    {
        self.open_selected()
    }
}

/// The state of the command-palette window.
pub struct PaletteState {
    pub query: String,
    pub results: Vec<SearchResult>,
    pub selected_index: usize,
    pub is_searching: bool,
    pub is_visible: bool,
}

impl PaletteState {
    /// Hidden (the hotkey shows it), with an empty query and no results.
    pub fn new() -> (r: PaletteState)
        ensures
            r.query@.len() == 0,
            r.results@.len() == 0,
            r.selected_index == 0,
            !r.is_searching,
            !r.is_visible,
    {
        PaletteState {
            query: String::new(),
            results: Vec::new(),
            selected_index: 0,
            is_searching: false,
            is_visible: false,
        }
    }

    /// After the query changed: an empty query clears the results and stops
    /// searching; any other query is returned to be searched.
    pub fn perform_search(&mut self) -> (r: Option<String>)
        ensures
            final(self).query == old(self).query,
            final(self).selected_index == old(self).selected_index,
            final(self).is_visible == old(self).is_visible,
            old(self).query@.len() == 0 ==> r is None && final(self).results@.len() == 0 && !final(self).is_searching,
            old(self).query@.len() > 0 ==> (r matches Some(q) && q@ == old(self).query@)
                && final(self).results == old(self).results && final(self).is_searching,
    {
        if self.query.as_str().is_empty() {
            self.results.clear();
            self.is_searching = false;
            return None;
        }
        self.is_searching = true;
        Some(self.query.clone())
    }

    /// Results arrived: show them, stop waiting, select the first.
    pub fn receive_results(&mut self, results: Vec<SearchResult>)
        ensures
            final(self).results == results,
            !final(self).is_searching,
            final(self).selected_index == 0,
            final(self).query == old(self).query,
            final(self).is_visible == old(self).is_visible,
    {
        self.results = results;
        self.is_searching = false;
        self.selected_index = 0;
    }

    /// A window event: the new visibility, and what to tell the window system.
    pub fn handle_window_event(&mut self, event: &WindowEvent) -> (r: ViewportAction)
        ensures
            final(self).is_visible == visibility_after(old(self).is_visible, *event),
            *event is Quit ==> r is Exit,
            !(*event is Quit) && final(self).is_visible ==> r is ShowAndFocus,
            !(*event is Quit) && !final(self).is_visible ==> r is Hide,
            final(self).query == old(self).query,
            final(self).results == old(self).results,
            final(self).selected_index == old(self).selected_index,
            final(self).is_searching == old(self).is_searching,
    {
        let (visible, action) = window_transition(self.is_visible, event);
        self.is_visible = visible;
        action
    }

    /// The pointer over result `index` (or a click on it) selects it.
    pub fn hover(&mut self, index: usize)
        ensures
            final(self).selected_index == index,
            final(self).query == old(self).query,
            final(self).results == old(self).results,
            final(self).is_searching == old(self).is_searching,
            final(self).is_visible == old(self).is_visible,
    {
        self.selected_index = index;
    }

    /// Escape: hide the window and clear the query and the results.
    pub fn dismiss(&mut self)
        ensures
            !final(self).is_visible,
            final(self).query@.len() == 0,
            final(self).results@.len() == 0,
            final(self).selected_index == old(self).selected_index,
            final(self).is_searching == old(self).is_searching,
    {
        self.is_visible = false;
        self.query = String::new();
        self.results.clear();
    }

    /// Enter or a click: the selected result's path, to be opened; the window
    /// is then dismissed. Nothing happens when no result is selected.
    pub fn open_selected(&mut self) -> (r: Option<String>)
        ensures
            old(self).selected_index < old(self).results@.len() ==> (r matches Some(p)
                && p@ == old(self).results@[old(self).selected_index as int].path@
                && !final(self).is_visible
                && final(self).query@.len() == 0
                && final(self).results@.len() == 0),
            old(self).selected_index >= old(self).results@.len() ==> r is None && *final(self) == *old(self),
    {
        let path = path_at(&self.results, self.selected_index);
        if path.is_some() {
            self.dismiss();
        }
        path
    }

    /// Arrow down.
    pub fn select_next(&mut self)
        ensures
            final(self).selected_index == next_saturating(old(self).selected_index, old(self).results@.len() as usize),
            final(self).query == old(self).query,
            final(self).results == old(self).results,
            final(self).is_searching == old(self).is_searching,
            final(self).is_visible == old(self).is_visible,
    {
        self.selected_index = step_saturating(self.selected_index, self.results.len());
    }

    /// Arrow up.
    pub fn select_previous(&mut self)
        ensures
            final(self).selected_index == previous(old(self).selected_index),
            final(self).query == old(self).query,
            final(self).results == old(self).results,
            final(self).is_searching == old(self).is_searching,
            final(self).is_visible == old(self).is_visible,
    {
        self.selected_index = step_back(self.selected_index);
    }
}

/// Which screen the launcher window shows.
#[derive(Debug, Clone, Copy, PartialEq, Eq, Structural)]
pub enum AppState {
    /// First launch: explain and offer to start indexing.
    FirstRun,
    /// The first scan runs.
    Indexing,
    /// Ready to search.
    Ready,
}

/// The state of the launcher window.
pub struct LauncherState {
    pub app_state: AppState,
    pub query: String,
    pub results: Vec<SearchResult>,
    pub selected_index: usize,
    pub is_searching: bool,
    pub is_visible: bool,
    pub setup_completed: bool,
}

/// The first screen: the welcome screen until setup has completed and the
/// index holds documents, the search screen after.
pub open spec fn first_screen(setup_completed: bool, num_documents: u64) -> AppState {
    if !setup_completed || num_documents == 0 { AppState::FirstRun } else { AppState::Ready }
}

impl LauncherState {
    /// Visible, on `first_screen`, with an empty query and no results.
    pub fn new(setup_completed: bool, num_documents: u64) -> (r: LauncherState)
        ensures
            r.app_state == first_screen(setup_completed, num_documents),
            r.setup_completed == setup_completed,
            r.query@.len() == 0,
            r.results@.len() == 0,
            r.selected_index == 0,
            !r.is_searching,
            r.is_visible,
    {
        let app_state = if !setup_completed || num_documents == 0 { AppState::FirstRun } else { AppState::Ready };
        LauncherState {
            app_state,
            query: String::new(),
            results: Vec::new(),
            selected_index: 0,
            is_searching: false,
            is_visible: true,
            setup_completed,
        }
    }

    /// After the query changed: an empty query clears the results (the
    /// searching flag stays as it was); any other query is returned to be
    /// searched.
    pub fn perform_search(&mut self) -> (r: Option<String>)
        ensures
            final(self).query == old(self).query,
            final(self).selected_index == old(self).selected_index,
            final(self).is_visible == old(self).is_visible,
            final(self).app_state == old(self).app_state,
            final(self).setup_completed == old(self).setup_completed,
            old(self).query@.len() == 0 ==> r is None && final(self).results@.len() == 0
                && final(self).is_searching == old(self).is_searching,
            old(self).query@.len() > 0 ==> (r matches Some(q) && q@ == old(self).query@)
                && final(self).results == old(self).results && final(self).is_searching,
    {
        if self.query.as_str().is_empty() {
            self.results.clear();
            return None;
        }
        self.is_searching = true;
        Some(self.query.clone())
    }

    /// Results arrived: show them, stop waiting, select the first.
    pub fn receive_results(&mut self, results: Vec<SearchResult>)
        ensures
            final(self).results == results,
            !final(self).is_searching,
            final(self).selected_index == 0,
            final(self).query == old(self).query,
            final(self).is_visible == old(self).is_visible,
            final(self).app_state == old(self).app_state,
            final(self).setup_completed == old(self).setup_completed,
    {
        self.results = results;
        self.is_searching = false;
        self.selected_index = 0;
    }

    /// A window event: the new visibility, and what to tell the window system.
    pub fn handle_window_event(&mut self, event: &WindowEvent) -> (r: ViewportAction)
        ensures
            final(self).is_visible == visibility_after(old(self).is_visible, *event),
            *event is Quit ==> r is Exit,
            !(*event is Quit) && final(self).is_visible ==> r is ShowAndFocus,
            !(*event is Quit) && !final(self).is_visible ==> r is Hide,
            final(self).query == old(self).query,
            final(self).results == old(self).results,
            final(self).selected_index == old(self).selected_index,
            final(self).is_searching == old(self).is_searching,
            final(self).app_state == old(self).app_state,
            final(self).setup_completed == old(self).setup_completed,
    {
        let (visible, action) = window_transition(self.is_visible, event);
        self.is_visible = visible;
        action
    }

    /// Opens result `index`: its path, to be opened; the window hides and
    /// the query and results are cleared. Nothing happens without such a result.
    pub fn open_result(&mut self, index: usize) -> (r: Option<String>)
        ensures
            index < old(self).results@.len() ==> (r matches Some(p)
                && p@ == old(self).results@[index as int].path@
                && !final(self).is_visible
                && final(self).query@.len() == 0
                && final(self).results@.len() == 0
                && final(self).selected_index == old(self).selected_index
                && final(self).app_state == old(self).app_state
                && final(self).setup_completed == old(self).setup_completed),
            index >= old(self).results@.len() ==> r is None && *final(self) == *old(self),
    {
        let path = path_at(&self.results, index);
        if path.is_some() {
            self.is_visible = false;
            self.query = String::new();
            self.results.clear();
        }
        path
    }

    /// A click on result `index`: select it, then open it.
    pub fn click_result(&mut self, index: usize) -> (r: Option<String>)
        ensures
            index < old(self).results@.len() ==> (r matches Some(p)
                && p@ == old(self).results@[index as int].path@
                && !final(self).is_visible
                && final(self).query@.len() == 0
                && final(self).results@.len() == 0
                && final(self).selected_index == index),
            index >= old(self).results@.len() ==> r is None && final(self).selected_index == index
                && final(self).results == old(self).results && final(self).query == old(self).query
                && final(self).is_visible == old(self).is_visible,
    {
        self.selected_index = index;
        self.open_result(index)
    }

    /// Enter: opens the selected result, if any.
    pub fn open_selected(&mut self) -> (r: Option<String>)
        ensures
            old(self).selected_index < old(self).results@.len() ==> (r matches Some(p)
                && p@ == old(self).results@[old(self).selected_index as int].path@
                && !final(self).is_visible
                && final(self).query@.len() == 0
                && final(self).results@.len() == 0),
            old(self).selected_index >= old(self).results@.len() ==> r is None && *final(self) == *old(self),
    {
        if self.results.len() == 0 {
            return None;
        }
        self.open_result(self.selected_index)
    }

    /// Arrow down: one further, at most to the last result.
    pub fn select_next(&mut self)
        ensures
            final(self).selected_index == next_clamped(old(self).selected_index, old(self).results@.len() as usize),
            final(self).results == old(self).results,
            final(self).query == old(self).query,
            final(self).is_visible == old(self).is_visible,
            final(self).is_searching == old(self).is_searching,
            final(self).app_state == old(self).app_state,
            final(self).setup_completed == old(self).setup_completed,
    {
        self.selected_index = step_clamped(self.selected_index, self.results.len());
    }

    /// Arrow up: one back, when there are results.
    pub fn select_previous(&mut self)
        ensures
            old(self).results@.len() > 0 ==> final(self).selected_index == previous(old(self).selected_index),
            old(self).results@.len() == 0 ==> final(self).selected_index == old(self).selected_index,
            final(self).results == old(self).results,
            final(self).query == old(self).query,
            final(self).is_visible == old(self).is_visible,
            final(self).is_searching == old(self).is_searching,
            final(self).app_state == old(self).app_state,
            final(self).setup_completed == old(self).setup_completed,
    {
        if self.results.len() > 0 {
            self.selected_index = step_back(self.selected_index);
        }
    }

    /// The "start indexing" button: the launcher shows the indexing screen.
    pub fn start_indexing(&mut self)
        ensures
            final(self).app_state == AppState::Indexing,
            final(self).setup_completed == old(self).setup_completed,
            final(self).query == old(self).query,
            final(self).results == old(self).results,
            final(self).is_visible == old(self).is_visible,
            final(self).is_searching == old(self).is_searching,
            final(self).selected_index == old(self).selected_index,
    {
        self.app_state = AppState::Indexing;
    }

    /// Escape closes the launcher: the application exits (it starts visible
    /// and is not brought back by a hotkey). The state is left as it is.
    pub fn escape(&self) -> (r: ViewportAction)
        ensures
            r is Exit,
    {
        ViewportAction::Exit
    }

    /// Indexing progress: once indexing is complete and has indexed
    /// something, the launcher is ready and setup is complete; returns
    /// whether that happened (the caller then records setup as done).
    pub fn update_indexing(&mut self, is_complete: bool, indexed: u64) -> (r: bool)
        ensures
            r == (is_complete && indexed > 0),
            r ==> final(self).app_state == AppState::Ready && final(self).setup_completed,
            !r ==> *final(self) == *old(self),
    {
        if is_complete && indexed > 0 {
            self.app_state = AppState::Ready;
            self.setup_completed = true;
            true
        } else {
            false
        }
    }
}

/// Toggling the window twice brings back its visibility.
pub proof fn toggle_twice_restores(visible: bool)
    ensures
        visibility_after(visibility_after(visible, WindowEvent::Toggle), WindowEvent::Toggle) == visible,
{
}

/// Arrow down never moves the selection past the last result, and arrow up
/// never below the first: with results present, a selection in range stays
/// in range.
pub proof fn selection_stays_in_range(selected: usize, len: usize)
    requires
        selected < len,
    ensures
        next_saturating(selected, len) < len,
        next_clamped(selected, len) < len,
        previous(selected) < len,
{
}

/// The arrow keys move the selection by one: down moves to the next result
/// while there is one and otherwise stays on the last; up moves to the
/// previous one and stays on the first; down then up comes back.
pub proof fn arrows_move_by_one(selected: usize, len: usize)
    ensures
        selected + 1 < len ==> next_saturating(selected, len) == selected + 1 && next_clamped(selected, len) == selected + 1,
        len > 0 && selected == len - 1 ==> next_saturating(selected, len) == selected && next_clamped(selected, len) == selected,
        len > 0 && selected >= len ==> next_clamped(selected, len) == len - 1,
        len == 0 ==> next_saturating(selected, len) == selected && next_clamped(selected, len) == selected,
        selected > 0 ==> previous(selected) == selected - 1,
        previous(0) == 0,
        selected + 1 < len ==> previous(next_saturating(selected, len)) == selected,
{
}

/// Window events: show makes the window visible, hide hides it, toggle
/// flips it, quit leaves it as it is.
pub proof fn window_events_set_visibility(visible: bool)
    ensures
        visibility_after(visible, WindowEvent::Show),
        !visibility_after(visible, WindowEvent::Hide),
        visibility_after(visible, WindowEvent::Toggle) == !visible,
        visibility_after(visible, WindowEvent::Quit) == visible,
{
}

/// A long path is shown as exactly 60 characters: "..." and its last 57
/// characters; a path of at most 60 characters is shown whole.
pub proof fn shortened_paths_are_sixty_characters(path: Seq<char>)
    ensures
        path.len() <= 60 ==> shortened(path) == path,
        path.len() > 60 ==> shortened(path).len() == 60
            && shortened(path)[0] == '.' && shortened(path)[1] == '.' && shortened(path)[2] == '.'
            && forall|k: int| 0 <= k < 57 ==> #[trigger] shortened(path)[3 + k] == path[path.len() - 57 + k],
{
    reveal_strlit("...");
}

/// Paths longer than 60 characters are shown as "..." and their last 57
/// characters.
pub open spec fn shortened(path: Seq<char>) -> Seq<char> {
    if path.len() > 60 {
        "..."@ + path.subrange(path.len() - 57, path.len() as int)
    } else {
        path
    }
}

/// The path as a result line shows it (`shortened`).
pub fn shortened_path(path: &str) -> (r: String)
    ensures
        r@ == shortened(path@),
{
    let chars = chars_of(path);
    let n = chars.len();
    if n <= 60 {
        return owned(path);
    }
    let mut r = owned("...");
    proof {
        reveal_strlit("...");
    }
    let start = n - 57;
    let mut i: usize = start;
    while i < n
        invariant
            start == n - 57,
            n == chars@.len(),
            chars@ == path@,
            start <= i <= n,
            r@ == "..."@ + path@.subrange(start as int, i as int),
        decreases n - i,
    {
        push_char(&mut r, chars[i]);
        i = i + 1;
        assert(r@ =~= "..."@ + path@.subrange(start as int, i as int));
    }
    r
}

} // verus!
