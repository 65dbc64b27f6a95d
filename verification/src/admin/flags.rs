//! The admin's flag screen: the table of flags, a preview of the selected one, a field to
//! submit a flag, and a search filter.
use vstd::prelude::*;
use ratatui::widgets::TableState;
use crate::conf::Conf;
use crate::database::Flag;
use crate::keys::{Key, KeyPress};
use crate::screen::Next;
use vstd::string::*;
use crate::text::{erased, typed};

verus! {

/// Whether the admin is browsing the table or typing a submission.
#[derive(Clone, Copy, Debug, PartialEq, Eq, Structural)]
pub enum AdminScreenState {
    Browse,
    Submit,
}

/// The state of the flag table that rendering keeps between frames: the first row shown, and
/// the selected row.
#[derive(Clone, Copy, Debug, PartialEq, Eq, Structural)]
pub struct TableView {
    pub offset: usize,
    pub selected: Option<usize>,
}

/// The row selected after moving down: the first row when none was, the next one otherwise
/// (held at the largest index).
pub open spec fn next_selection(selected: Option<usize>) -> Option<usize> {
    match selected {
        None => Some(0usize),
        Some(i) => Some(if i == usize::MAX { i } else { (i + 1) as usize }),
    }
}

/// The row selected after moving up: the last row (the largest index, which rendering brings
/// back to the last row) when none was, the previous one otherwise (held at the first).
pub open spec fn previous_selection(selected: Option<usize>) -> Option<usize> {
    match selected {
        None => Some(usize::MAX),
        Some(i) => Some(if i == 0 { 0usize } else { (i - 1) as usize }),
    }
}

/// Calls ratatui's `TableState::select_next` on a table state with the given offset and
/// selection. Its source selects `Some(i.saturating_add(1))`, or `Some(0)` when nothing was
/// selected, and `select` with `Some` leaves the offset alone; this contract says exactly that.
#[verifier::external_body]
fn table_select_next(table: TableView) -> (res: TableView)
    ensures
        res.offset == table.offset,
        res.selected == next_selection(table.selected),
{
    let mut state = TableState::new().with_offset(table.offset).with_selected(table.selected);
    state.select_next();
    TableView { offset: state.offset(), selected: state.selected() }
}

/// Calls ratatui's `TableState::select_previous` on a table state with the given offset and
/// selection. Its source selects `Some(i.saturating_sub(1))`, or `Some(usize::MAX)` when nothing
/// was selected, and `select` with `Some` leaves the offset alone; this contract says exactly
/// that.
#[verifier::external_body]
fn table_select_previous(table: TableView) -> (res: TableView)
    ensures
        res.offset == table.offset,
        res.selected == previous_selection(table.selected),
{
    let mut state = TableState::new().with_offset(table.offset).with_selected(table.selected);
    state.select_previous();
    TableView { offset: state.offset(), selected: state.selected() }
}

/// What the search filter filters by.
pub enum SearchFilterKind {
    NoFilter,
    Solved(bool),
    Search(String),
}

/// The search filter's kind as a value.
pub enum FilterKind {
    NoFilter,
    Solved(bool),
    Search(Seq<char>),
}

impl View for SearchFilterKind {
    type V = FilterKind;

    open spec fn view(&self) -> FilterKind {
        match self {
            SearchFilterKind::NoFilter => FilterKind::NoFilter,
            SearchFilterKind::Solved(b) => FilterKind::Solved(*b),
            SearchFilterKind::Search(s) => FilterKind::Search(s@),
        }
    }
}

/// The filter kind after a key press in the filter dialog. Tab goes from no filter to a
/// search, to the solved switch, and back to no filter; BackTab goes the other way; each step starts the new kind afresh (an empty
/// search, or "not solved"). Characters and Backspace edit a search; Left and Right flip the
/// solved switch; other keys change nothing.
pub open spec fn kind_after_key(kind: FilterKind, key: Key) -> FilterKind {
    match key {
        Key::BackTab => match kind {
            FilterKind::NoFilter => FilterKind::Solved(false),
            FilterKind::Solved(_) => FilterKind::Search(Seq::empty()),
            FilterKind::Search(_) => FilterKind::NoFilter,
        },
        Key::Tab => match kind {
            FilterKind::NoFilter => FilterKind::Search(Seq::empty()),
            FilterKind::Search(_) => FilterKind::Solved(false),
            FilterKind::Solved(_) => FilterKind::NoFilter,
        },
        Key::Char(c) => match kind {
            FilterKind::Search(s) => FilterKind::Search(typed(s, c)),
            _ => kind,
        },
        Key::Backspace => match kind {
            FilterKind::Search(s) => FilterKind::Search(erased(s)),
            _ => kind,
        },
        Key::Left | Key::Right => match kind {
            FilterKind::Solved(b) => FilterKind::Solved(!b),
            _ => kind,
        },
        _ => kind,
    }
}

/// The kind as a fresh step of the Tab cycle leaves it: the same kind, with its value reset.
pub open spec fn kind_reset(kind: FilterKind) -> FilterKind {
    match kind {
        FilterKind::NoFilter => FilterKind::NoFilter,
        FilterKind::Solved(_) => FilterKind::Solved(false),
        FilterKind::Search(_) => FilterKind::Search(Seq::empty()),
    }
}

/// The search filter and whether its dialog is open.
pub struct SearchFilter {
    pub search_kind: SearchFilterKind,
    pub ui_active: bool,
}

impl SearchFilter {
    /// A filter that filters nothing, with its dialog closed.
    pub fn new() -> (res: SearchFilter)
        ensures
            res.search_kind@ == FilterKind::NoFilter,
            !res.ui_active,
    {
        SearchFilter { search_kind: SearchFilterKind::NoFilter, ui_active: false }
    }

    /// Handles a key press in the filter dialog. Enter closes the dialog and applies the filter,
    /// which is the only case that returns `true`; Esc closes the dialog; every key changes the
    /// kind as `kind_after_key` says.
    pub fn handle_input(&mut self, key: KeyPress) -> (res: bool)
        ensures
            res == (key.key is Enter),
            final(self).search_kind@ == kind_after_key(old(self).search_kind@, key.key),
            key.key is Enter || key.key is Esc ==> final(self).search_kind@ == old(self).search_kind@,
            final(self).ui_active == (if key.key is Enter || key.key is Esc {
                false
            } else {
                old(self).ui_active
            }),
    {
        match key.key {
            Key::Enter => {
                self.ui_active = false;
                return true;
            },
            Key::Esc => {
                self.ui_active = false;
            },
            Key::BackTab => {
                let next = match self.search_kind {
                    SearchFilterKind::NoFilter => SearchFilterKind::Solved(false),
                    SearchFilterKind::Solved(_) => SearchFilterKind::Search(String::new()),
                    SearchFilterKind::Search(_) => SearchFilterKind::NoFilter,
                };
                self.search_kind = next;
            },
            Key::Tab => {
                let next = match self.search_kind {
                    SearchFilterKind::NoFilter => SearchFilterKind::Search(String::new()),
                    SearchFilterKind::Search(_) => SearchFilterKind::Solved(false),
                    SearchFilterKind::Solved(_) => SearchFilterKind::NoFilter,
                };
                self.search_kind = next;
            },
            Key::Char(c) => match &mut self.search_kind {
                SearchFilterKind::Search(string) => string.push(c),
                _ => (),
            },
            Key::Backspace => match &mut self.search_kind {
                SearchFilterKind::Search(string) => {
                    string.pop();
                },
                _ => (),
            },
            Key::Left | Key::Right => match &mut self.search_kind {
                SearchFilterKind::Solved(toggle) => {
                    *toggle = !*toggle;
                },
                _ => (),
            },
            _ => (),
        }
        false
    }

    /// The name of the filter's kind, as the filter dialog shows it.
    pub fn kind_label(&self) -> (res: &'static str)
        ensures
            self.search_kind@ is NoFilter ==> res@ == "None"@,
            self.search_kind@ is Solved ==> res@ == "Solved"@,
            self.search_kind@ is Search ==> res@ == "Search"@,
    {
        match self.search_kind {
            SearchFilterKind::NoFilter => "None",
            SearchFilterKind::Solved(_) => "Solved",
            SearchFilterKind::Search(_) => "Search",
        }
    }

    /// The filter's value, as the filter dialog shows it: "true" or "false" for the solved
    /// switch, the text of a search, and none without a filter.
    pub fn value_text(&self) -> (res: Option<String>)
        ensures
            match self.search_kind@ {
                FilterKind::NoFilter => res is None,
                FilterKind::Solved(b) => res matches Some(t) && t@ == (if b {
                    "true"@
                } else {
                    "false"@
                }),
                FilterKind::Search(text) => res matches Some(t) && t@ == text,
            },
    {
        match &self.search_kind {
            SearchFilterKind::NoFilter => None,
            SearchFilterKind::Solved(b) => {
                if *b {
                    Some(String::from_str("true"))
                } else {
                    Some(String::from_str("false"))
                }
            },
            SearchFilterKind::Search(text) => Some(text.clone()),
        }
    }
}

/// Tab then BackTab leaves the filter on the kind it had, started afresh.
pub proof fn law_backtab_undoes_tab(kind: FilterKind)
    ensures
        kind_after_key(kind_after_key(kind, Key::Tab), Key::BackTab) == kind_reset(kind),
        kind_after_key(kind_after_key(kind, Key::BackTab), Key::Tab) == kind_reset(kind),
{
}

/// Three Tabs, or three BackTabs, go round the whole cycle of kinds.
pub proof fn law_tab_cycle(kind: FilterKind)
    ensures
        kind_after_key(kind_after_key(kind_after_key(kind, Key::Tab), Key::Tab), Key::Tab)
            == kind_reset(kind),
        kind_after_key(
            kind_after_key(kind_after_key(kind, Key::BackTab), Key::BackTab),
            Key::BackTab,
        ) == kind_reset(kind),
{
}

/// Enter, which applies the filter, and Esc, Up and Down leave the filter's kind and value as
/// they are, whatever they are.
pub proof fn law_other_keys_keep_filter(kind: FilterKind)
    ensures
        kind_after_key(kind, Key::Enter) == kind,
        kind_after_key(kind, Key::Esc) == kind,
        kind_after_key(kind, Key::Up) == kind,
        kind_after_key(kind, Key::Down) == kind,
{
}

/// In a search, Backspace right after a character gives back the search as it was; on the
/// solved switch, Left after Right (or Right after Left) gives back the switch as it was.
pub proof fn law_filter_edits_undo(kind: FilterKind, c: char)
    ensures
        kind is Search ==> kind_after_key(kind_after_key(kind, Key::Char(c)), Key::Backspace)
            == kind,
        kind is Solved ==> kind_after_key(kind_after_key(kind, Key::Right), Key::Left) == kind,
        kind is Solved ==> kind_after_key(kind_after_key(kind, Key::Left), Key::Right) == kind,
{
    if let FilterKind::Search(s) = kind {
        crate::text::law_erase_undoes_type(s, c);
    }
}

/// The description's scroll position one line further down, held at the largest offset.
pub open spec fn scrolled_down(scroll: u16) -> u16 {
    if scroll == u16::MAX {
        scroll
    } else {
        (scroll + 1) as u16
    }
}

/// The description's scroll position one line back up, held at the top.
pub open spec fn scrolled_up(scroll: u16) -> u16 {
    if scroll == 0 {
        scroll
    } else {
        (scroll - 1) as u16
    }
}

/// The admin's flag screen.
pub struct AdminScreen {
    pub state: AdminScreenState,
    pub flags: Vec<Flag>,
    pub error: Option<String>,
    pub table: TableView,
    pub scroll: u16,
    pub submission: String,
    pub filter: SearchFilter,
    pub conf: Conf,
}

/// The key hints shown at the bottom of the admin screen.
pub open spec fn commands_text(state: AdminScreenState, filter_open: bool) -> Seq<char> {
    match state {
        AdminScreenState::Browse => if filter_open {
            "^Q[QUIT] Esc[BACK] \u{21e5}[KIND] \u{21c4}[VALUE] \u{21b5}[APPLY]"@
        } else {
            "^Q[QUIT] \u{21f5}[NAV] \u{21b5}[SELECT] ^R[RELOAD] ^\u{21c4}[TABS] ^F[FILTER]"@
        },
        AdminScreenState::Submit => "^Q[QUIT] Esc[BACK] \u{21f5}[SCROLL] \u{21b5}[SUBMIT] ^R[RELOAD]"@,
    }
}

impl AdminScreen {
    /// The admin screen over the flags that were loaded, or, where loading them failed with
    /// `Err(message)`, over no flags with that message shown. It starts browsing, with the
    /// first row selected, nothing typed and no filter.
    pub fn new(conf: Conf, loaded: Result<Vec<Flag>, String>) -> (res: AdminScreen)
        ensures
            res.state == AdminScreenState::Browse,
            res.table == (TableView { offset: 0, selected: Some(0) }),
            res.scroll == 0,
            res.submission@ == Seq::<char>::empty(),
            res.filter.search_kind@ == FilterKind::NoFilter,
            !res.filter.ui_active,
            res.conf == conf,
            match loaded {
                Ok(flags) => res.flags == flags && res.error is None,
                Err(message) => res.flags@ == Seq::<Flag>::empty() && res.error == Some(message),
            },
    {
        let mut error = None;
        let flags = match loaded {
            Ok(f) => f,
            Err(e) => {
                error = Some(e);
                Vec::new()
            },
        };
        AdminScreen {
            state: AdminScreenState::Browse,
            table: TableView { offset: 0, selected: Some(0) },
            flags,
            error,
            scroll: 0,
            filter: SearchFilter::new(),
            submission: String::new(),
            conf,
        }
    }

    /// Handles one turn of input; the screen does not react to keys yet.
    pub fn handle_input(&mut self, key: Option<KeyPress>) -> (res: Option<Next>)
        ensures
            res is None,
            *final(self) == *old(self),
    {
        let _key = match key {
            None => return None,
            Some(k) => k,
        };
        None
    }

    /// Submits the typed flag; nothing follows yet.
    pub fn submit(&mut self) -> (res: Option<Next>)
        ensures
            res is None,
            *final(self) == *old(self),
    {
        None
    }

    /// Moves down: to the next row while browsing, one line further into the description
    /// (held at the largest offset) while submitting.
    pub fn focus_next(&mut self)
        ensures
            final(self).state == old(self).state,
            final(self).submission == old(self).submission,
            final(self).error == old(self).error,
            final(self).flags == old(self).flags,
            final(self).filter == old(self).filter,
            final(self).conf == old(self).conf,
            old(self).state == AdminScreenState::Browse ==> {
                &&& final(self).table.offset == old(self).table.offset
                &&& final(self).table.selected == next_selection(old(self).table.selected)
                &&& final(self).scroll == old(self).scroll
            },
            old(self).state == AdminScreenState::Submit ==> {
                &&& final(self).table == old(self).table
                &&& final(self).scroll == scrolled_down(old(self).scroll)
            },
    {
        match self.state {
            AdminScreenState::Browse => self.table = table_select_next(self.table),
            AdminScreenState::Submit => self.scroll = self.scroll.saturating_add(1),
        }
    }

    /// Moves up: to the previous row while browsing, one line back in the description (held at
    /// the top) while submitting.
    pub fn focus_prev(&mut self)
        ensures
            final(self).state == old(self).state,
            final(self).submission == old(self).submission,
            final(self).error == old(self).error,
            final(self).flags == old(self).flags,
            final(self).filter == old(self).filter,
            final(self).conf == old(self).conf,
            old(self).state == AdminScreenState::Browse ==> {
                &&& final(self).table.offset == old(self).table.offset
                &&& final(self).table.selected == previous_selection(old(self).table.selected)
                &&& final(self).scroll == old(self).scroll
            },
            old(self).state == AdminScreenState::Submit ==> {
                &&& final(self).table == old(self).table
                &&& final(self).scroll == scrolled_up(old(self).scroll)
            },
    {
        match self.state {
            AdminScreenState::Browse => self.table = table_select_previous(self.table),
            AdminScreenState::Submit => self.scroll = self.scroll.saturating_sub(1),
        }
    }

    /// Leaves the submission: back to browsing, at the top of the description, with the typed
    /// flag thrown away. While browsing nothing happens.
    pub fn escape(&mut self) -> (res: Option<Next>)
        ensures
            res is None,
            final(self).table == old(self).table,
            final(self).error == old(self).error,
            final(self).flags == old(self).flags,
            final(self).filter == old(self).filter,
            final(self).conf == old(self).conf,
            old(self).state == AdminScreenState::Submit ==> {
                &&& final(self).state == AdminScreenState::Browse
                &&& final(self).scroll == 0
                &&& final(self).submission@ == Seq::<char>::empty()
            },
            old(self).state == AdminScreenState::Browse ==> *final(self) == *old(self),
    {
        match self.state {
            AdminScreenState::Submit => {
                self.scroll = 0;
                self.submission.clear();
                self.state = AdminScreenState::Browse;
                return None;
            },
            _ => None,
        }
    }

    /// Erases the last character of the submission; while browsing nothing happens.
    pub fn erase(&mut self)
        ensures
            old(self).state == AdminScreenState::Browse ==> *final(self) == *old(self),
            old(self).state == AdminScreenState::Submit ==> {
                &&& final(self).submission@ == erased(old(self).submission@)
                &&& final(self).state == old(self).state
                &&& final(self).scroll == old(self).scroll
                &&& final(self).table == old(self).table
                &&& final(self).error == old(self).error
                &&& final(self).flags == old(self).flags
                &&& final(self).filter == old(self).filter
                &&& final(self).conf == old(self).conf
            },
    {
        match self.state {
            AdminScreenState::Browse => (),
            AdminScreenState::Submit => {
                let _ = self.submission.pop();
            },
        }
    }

    /// Types a character of the submission; while browsing nothing happens.
    pub fn write_char(&mut self, c: char)
        ensures
            old(self).state == AdminScreenState::Browse ==> *final(self) == *old(self),
            old(self).state == AdminScreenState::Submit ==> {
                &&& final(self).submission@ == typed(old(self).submission@, c)
                &&& final(self).state == old(self).state
                &&& final(self).scroll == old(self).scroll
                &&& final(self).table == old(self).table
                &&& final(self).error == old(self).error
                &&& final(self).flags == old(self).flags
                &&& final(self).filter == old(self).filter
                &&& final(self).conf == old(self).conf
            },
    {
        match self.state {
            AdminScreenState::Browse => (),
            AdminScreenState::Submit => self.submission.push(c),
        }
    }

    /// The key hints for the bottom of the screen, which depend on what the admin is doing.
    pub fn commands_hint(&self) -> (res: &'static str)
        ensures
            res@ == commands_text(self.state, self.filter.ui_active),
    {
        match self.state {
            AdminScreenState::Browse => {
                if self.filter.ui_active {
                    "^Q[QUIT] Esc[BACK] \u{21e5}[KIND] \u{21c4}[VALUE] \u{21b5}[APPLY]"
                } else {
                    "^Q[QUIT] \u{21f5}[NAV] \u{21b5}[SELECT] ^R[RELOAD] ^\u{21c4}[TABS] ^F[FILTER]"
                }
            },
            AdminScreenState::Submit => "^Q[QUIT] Esc[BACK] \u{21f5}[SCROLL] \u{21b5}[SUBMIT] ^R[RELOAD]",
        }
    }

    /// The titles of the screen's tabs: flags and leaderboard, and an about tab where the
    /// configuration has an about text.
    pub fn tab_titles(&self) -> (res: Vec<&'static str>)
        ensures
            self.conf.about is Some ==> res.len() == 3 && res[0]@ == "FLAGS"@ && res[1]@
                == "LEADERBOARD"@ && res[2]@ == "ABOUT"@,
            self.conf.about is None ==> res.len() == 2 && res[0]@ == "FLAGS"@ && res[1]@
                == "LEADERBOARD"@,
    {
        if self.conf.about.is_some() {
            vec!["FLAGS", "LEADERBOARD", "ABOUT"]
        } else {
            vec!["FLAGS", "LEADERBOARD"]
        }
    }

    /// The flag that the preview shows: the selected row's, or an error where no row is
    /// selected or the selection is past the last flag.
    pub fn selected_flag(&self) -> (res: Result<&Flag, &'static str>)
        ensures
            match self.table.selected {
                Some(i) if i < self.flags.len() => res == Ok::<&Flag, &'static str>(&self.flags[i as int]),
                _ => res matches Err(message) && message@ == "failed to get selected flag"@,
            },
    {
        match self.table.selected {
            Some(i) => {
                if i < self.flags.len() {
                    Ok(&self.flags[i])
                } else {
                    Err("failed to get selected flag")
                }
            },
            None => Err("failed to get selected flag"),
        }
    }

    /// Takes back the table state as rendering left it (rendering keeps the selection on an
    /// existing row and scrolls the table to it).
    pub fn set_table(&mut self, table: TableView)
        ensures
            final(self).table == table,
            final(self).state == old(self).state,
            final(self).scroll == old(self).scroll,
            final(self).submission == old(self).submission,
            final(self).error == old(self).error,
            final(self).flags == old(self).flags,
            final(self).filter == old(self).filter,
            final(self).conf == old(self).conf,
    {
        self.table = table;
    }

    /// Whether the preview is drawn in its active colours: while the admin is typing a
    /// submission, and not while browsing.
    pub fn preview_active(&self) -> (res: bool)
        ensures
            res == (self.state == AdminScreenState::Submit),
    {
        match self.state {
            AdminScreenState::Browse => false,
            AdminScreenState::Submit => true,
        }
    }

    /// Whether the table's row `i` is drawn on the darker of its two alternating backgrounds.
    pub fn row_shaded(i: usize) -> (res: bool)
        ensures
            res == (i % 2 == 1),
    {
        i % 2 == 1
    }
}

/// In the submission, erasing right after typing gives back what was typed before; and moving
/// back up right after moving down gives back the scroll position, short of the largest one.
pub proof fn law_submit_moves_undo(scroll: u16, text: Seq<char>, c: char)
    ensures
        erased(typed(text, c)) == text,
        scroll < u16::MAX ==> scrolled_up(scrolled_down(scroll)) == scroll,
        scroll > 0 ==> scrolled_down(scrolled_up(scroll)) == scroll,
{
    crate::text::law_erase_undoes_type(text, c);
}

/// Moving up right after moving down gives back the selected row, short of the largest index;
/// moving down right after moving up gives it back from the second row on.
pub proof fn law_selection_moves_undo(selected: Option<usize>)
    ensures
        selected matches Some(i) && i < usize::MAX ==> previous_selection(next_selection(selected))
            == selected,
        selected matches Some(i) && i > 0 ==> next_selection(previous_selection(selected))
            == selected,
{
}

} // verus!
