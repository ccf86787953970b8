//! The board of an open project: its lists of cards, the two-axis selection
//! over them, and the key handling that reorders, moves, toggles and deletes.
use crate::focus::{AppState, Mode, PopupKind, Screen};
use crate::key::Key;
use crate::ledger::{
    count_in, index_of, ledger_wf, lemma_dense_highest, lemma_move_round_trip,
    lemma_moved_wf, lowered, moved, group_dense, Row,
};
use crate::screens::list_editor::{ListData, ListEditor, ListEditorResult};
use crate::config_layers::ProjectMangementModule;
use crate::datetime::now_seconds;
use crate::store::StoreOp;
use vstd::prelude::*;

verus! {

pub const SECONDS_PER_DAY: i64 = 86400;

#[derive(Clone, Debug)]
pub struct ProjectLabel {
    pub id: i32,
    pub title: String,
    pub color: String,
}

#[derive(Clone, Copy, Debug, PartialEq, Eq, Structural)]
pub struct ProjectCardSubtask {
    pub card_id: i32,
    pub completed: bool,
}

/// The status a card shows, by strict priority.
#[derive(Clone, Copy, Debug, PartialEq, Eq, Structural)]
pub enum CardStatus {
    Completed,
    Overdue,
    DueSoon,
    InProgress,
    Important,
    Plain,
}

/// A card; dates are seconds since the Unix epoch, UTC.
#[derive(Clone, Debug)]
pub struct OpenProjectCard {
    pub id: i32,
    pub list_id: i32,
    pub title: String,
    pub description: Option<String>,
    pub important: bool,
    pub start_date: Option<i64>,
    pub due_date: Option<i64>,
    pub completed: bool,
    pub position: i32,
    pub labels: Vec<i32>,
    pub subtasks: Vec<ProjectCardSubtask>,
}

pub open spec fn spec_overdue(due: Option<i64>, now: i64) -> bool {
    match due {
        Some(d) => d < now,
        None => false,
    }
}

pub open spec fn spec_due_soon(due: Option<i64>, days: i32, now: i64) -> bool {
    match due {
        Some(d) => d - now <= days * SECONDS_PER_DAY && !spec_overdue(due, now),
        None => false,
    }
}

pub open spec fn spec_in_progress(start: Option<i64>, due: Option<i64>, now: i64) -> bool {
    match start {
        Some(s) => s < now && !spec_overdue(due, now),
        None => false,
    }
}

pub open spec fn spec_status(
    completed: bool,
    important: bool,
    start: Option<i64>,
    due: Option<i64>,
    days: i32,
    now: i64,
) -> CardStatus {
    if completed {
        CardStatus::Completed
    } else if spec_overdue(due, now) {
        CardStatus::Overdue
    } else if spec_due_soon(due, days, now) {
        CardStatus::DueSoon
    } else if spec_in_progress(start, due, now) {
        CardStatus::InProgress
    } else if important {
        CardStatus::Important
    } else {
        CardStatus::Plain
    }
}

impl OpenProjectCard {
    /// The due date has passed.
    pub fn overdue(&self, now: i64) -> (r: bool)
        ensures
            r == spec_overdue(self.due_date, now),
    {
        match self.due_date {
            Some(d) => d < now,
            None => false,
        }
    }

    /// The due date is at most `days` days away and has not passed.
    pub fn due_soon(&self, days: i32, now: i64) -> (r: bool)
        ensures
            r == spec_due_soon(self.due_date, days, now),
    {
        match self.due_date {
            Some(d) => {
                let gap: i128 = (d as i128) - (now as i128);
                let days_wide: i128 = days as i128;
                proof {
                    assert(-2147483648 <= days_wide <= 2147483647);
                    assert(days_wide * 86400 <= 2147483647 * 86400) by (nonlinear_arith)
                        requires
                            days_wide <= 2147483647,
                    ;
                    assert(days_wide * 86400 >= -2147483648 * 86400) by (nonlinear_arith)
                        requires
                            days_wide >= -2147483648,
                    ;
                }
                let window: i128 = days_wide * 86400;
                gap <= window && !self.overdue(now)
            },
            None => false,
        }
    }

    /// The start date has passed and the card is not overdue.
    pub fn in_progress(&self, now: i64) -> (r: bool)
        ensures
            r == spec_in_progress(self.start_date, self.due_date, now),
    {
        match self.start_date {
            Some(s) => s < now && !self.overdue(now),
            None => false,
        }
    }

    /// The status shown: completed, then overdue, due soon, in progress,
    /// important, in that order of priority.
    pub fn status(&self, due_soon_days: i32, now: i64) -> (r: CardStatus)
        ensures
            r == spec_status(
                self.completed,
                self.important,
                self.start_date,
                self.due_date,
                due_soon_days,
                now,
            ),
    {
        if self.completed {
            CardStatus::Completed
        } else if self.overdue(now) {
            CardStatus::Overdue
        } else if self.due_soon(due_soon_days, now) {
            CardStatus::DueSoon
        } else if self.in_progress(now) {
            CardStatus::InProgress
        } else if self.important {
            CardStatus::Important
        } else {
            CardStatus::Plain
        }
    }
}

impl OpenProjectCard {
    /// The status now, by the system clock.
    pub fn current_status(&self, due_soon_days: i32) -> (r: CardStatus)
        ensures
            exists|now: i64|
                r == spec_status(
                    self.completed,
                    self.important,
                    self.start_date,
                    self.due_date,
                    due_soon_days,
                    now,
                ),
            self.completed ==> r == CardStatus::Completed,
    {
        let now = now_seconds();
        self.status(due_soon_days, now)
    }
}

/// The configured character for a status.
pub fn status_char(status: CardStatus, config: &ProjectMangementModule<i32, String>) -> (r: &String)
    ensures
        r == match status {
            CardStatus::Completed => &config.completed_char,
            CardStatus::Overdue => &config.overdue_char,
            CardStatus::DueSoon => &config.due_soon_char,
            CardStatus::InProgress => &config.in_progress_char,
            CardStatus::Important => &config.important_char,
            CardStatus::Plain => &config.default_char,
        },
{
    match status {
        CardStatus::Completed => &config.completed_char,
        CardStatus::Overdue => &config.overdue_char,
        CardStatus::DueSoon => &config.due_soon_char,
        CardStatus::InProgress => &config.in_progress_char,
        CardStatus::Important => &config.important_char,
        CardStatus::Plain => &config.default_char,
    }
}

/// Completed outranks every other status, and a card past its due date is
/// overdue and never due soon.
pub proof fn lemma_status_priority(
    important: bool,
    start: Option<i64>,
    due: Option<i64>,
    days: i32,
    now: i64,
)
    ensures
        spec_status(true, important, start, due, days, now) == CardStatus::Completed,
        spec_overdue(due, now) ==> !spec_due_soon(due, days, now) && spec_status(
            false,
            important,
            start,
            due,
            days,
            now,
        ) == CardStatus::Overdue,
{
}

#[derive(Clone, Debug)]
pub struct ProjectList {
    pub id: i32,
    pub title: String,
    pub cards: Vec<OpenProjectCard>,
}

/// The tree shown on the board, as loaded from the store.
#[derive(Clone, Debug)]
pub struct ProjectData {
    pub title: String,
    pub labels: Vec<ProjectLabel>,
    pub lists: Vec<ProjectList>,
}

impl ProjectData {
    pub fn empty() -> (r: ProjectData)
        ensures
            r.title@.len() == 0,
            r.labels@.len() == 0,
            r.lists@.len() == 0,
    {
        ProjectData { title: String::new(), labels: Vec::new(), lists: Vec::new() }
    }
}

/// Which editor popup, if any, owns the keyboard.
#[derive(Clone, Copy, Debug, PartialEq, Eq, Structural)]
pub enum OpenProjectPopup {
    NewList,
    EditList,
    ViewCard,
    NewCard,
    EditCard,
    NoPopup,
}

/// What a pending delete confirmation is about.
#[derive(Clone, Copy, Debug, PartialEq, Eq, Structural)]
pub enum DeleteSelection {
    List,
    Card,
    Nothing,
}

/// The pane that takes navigation keys.
#[derive(Clone, Copy, Debug, PartialEq, Eq, Structural)]
pub enum Focus {
    List,
    Card,
}

/// A cursor to put in place once the board is reloaded.
#[derive(Clone, Copy, Debug, PartialEq, Eq, Structural)]
pub enum AfterRefresh {
    Keep,
    SelectLastList,
    FocusLastCard,
    FocusCard { list: usize, card: usize },
}

/// What the host has to do after a key press on the board.
#[derive(Clone, Debug)]
pub enum BoardAction {
    Stay,
    /// Back to the list of projects.
    Leave,
    /// Perform the write, then reload the board.
    Apply(StoreOp),
    /// Show the card viewer for this card.
    ViewCard { card_id: i32 },
    /// Show the card editor for a new card of this list.
    NewCard { project_id: i32, list_id: i32 },
    /// Show the card editor for this card.
    EditCard { project_id: i32, list_id: i32, card_id: i32 },
    /// The key belongs to the open card popup.
    CardPopupKey,
}

/// `i` moved into `0..n`, or 0 when there is nothing.
pub open spec fn clamp(i: int, n: int) -> int {
    if n <= 0 {
        0
    } else if i < n {
        i
    } else {
        n - 1
    }
}

pub fn clamp_index(i: usize, n: usize) -> (r: usize)
    ensures
        r == clamp(i as int, n as int),
{
    if n == 0 {
        0
    } else if i < n {
        i
    } else {
        n - 1
    }
}

pub struct OpenProject {
    pub project_id: Option<i32>,
    pub selected_list_index: usize,
    pub data: ProjectData,
    pub popup: OpenProjectPopup,
    pub new_list: ListEditor,
    pub edit_list: ListEditor,
    pub delete_selection: DeleteSelection,
    /// The focused card of each list, kept while another list is selected.
    pub list_selections: Vec<usize>,
    pub focus: Focus,
    pub after_refresh: AfterRefresh,
}

impl OpenProject {
    pub open spec fn lists(&self) -> Seq<ProjectList> {
        self.data.lists@
    }

    pub open spec fn cards_len(&self, i: int) -> int {
        self.data.lists@[i].cards@.len() as int
    }

    pub open spec fn selected(&self) -> int {
        self.selected_list_index as int
    }

    /// The focused card of the selected list.
    pub open spec fn cursor(&self) -> int {
        self.list_selections@[self.selected_list_index as int] as int
    }

    pub open spec fn selected_card(&self) -> OpenProjectCard {
        self.data.lists@[self.selected()].cards@[self.cursor()]
    }

    pub open spec fn has_selected_card(&self) -> bool {
        self.lists().len() > 0 && self.cards_len(self.selected()) > 0
    }

    /// Whether `d` has something to delete: the selected list on the list
    /// pane of an open project, the focused card on the card pane.
    pub open spec fn can_delete(&self) -> bool {
        ||| (self.focus == Focus::List && self.project_id.is_some() && self.lists().len() > 0)
        ||| (self.focus == Focus::Card && self.has_selected_card())
    }

    /// Every cursor points inside what it selects, and the editors are ready
    /// for what their popups do.
    pub open spec fn wf(&self) -> bool {
        &&& self.list_selections@.len() == self.lists().len()
        &&& self.selected_list_index == clamp(self.selected(), self.lists().len() as int)
        &&& forall|i: int|
            0 <= i < self.lists().len() ==> #[trigger] self.list_selections@[i] == clamp(
                self.list_selections@[i] as int,
                self.cards_len(i),
            )
        &&& self.new_list.wf()
        &&& self.new_list.is_new
        &&& self.edit_list.wf()
        &&& !self.edit_list.is_new
        &&& (self.popup == OpenProjectPopup::EditList ==> self.edit_list.data.is_some())
    }

    pub fn init() -> (r: OpenProject)
        ensures
            r.wf(),
            r.project_id.is_none(),
            r.lists().len() == 0,
            r.popup == OpenProjectPopup::NoPopup,
            r.delete_selection == DeleteSelection::Nothing,
            r.focus == Focus::Card,
    {
        OpenProject {
            project_id: None,
            selected_list_index: 0,
            data: ProjectData::empty(),
            popup: OpenProjectPopup::NoPopup,
            new_list: ListEditor::init().empty(),
            edit_list: ListEditor::init(),
            delete_selection: DeleteSelection::Nothing,
            list_selections: Vec::new(),
            focus: Focus::Card,
            after_refresh: AfterRefresh::Keep,
        }
    }

    pub fn set_project_id(&mut self, project_id: i32)
        requires
            old(self).wf(),
        ensures
            final(self).wf(),
            final(self).project_id == Some(project_id),
            final(self).new_list.project_id == Some(project_id),
            final(self).edit_list.project_id == Some(project_id),
            final(self).data == old(self).data,
            final(self).list_selections@ == old(self).list_selections@,
            final(self).selected_list_index == old(self).selected_list_index,
            final(self).popup == old(self).popup,
            final(self).focus == old(self).focus,
            final(self).delete_selection == old(self).delete_selection,
            final(self).after_refresh == old(self).after_refresh,
    {
        self.project_id = Some(project_id);
        self.new_list.project_id(project_id);
        self.edit_list.project_id(project_id);
    }

    /// Forgets the open project.
    pub fn reset(&mut self)
        requires
            old(self).wf(),
        ensures
            final(self).wf(),
            final(self).project_id.is_none(),
            final(self).selected_list_index == 0,
            final(self).list_selections@.len() == 0,
            final(self).lists().len() == 0,
            final(self).popup == OpenProjectPopup::NoPopup,
            final(self).delete_selection == DeleteSelection::Nothing,
    {
        self.project_id = None;
        self.selected_list_index = 0;
        self.list_selections = Vec::new();
        self.data = ProjectData::empty();
        self.popup = OpenProjectPopup::NoPopup;
        self.new_list.reset();
        self.edit_list.reset();
        self.delete_selection = DeleteSelection::Nothing;
        self.after_refresh = AfterRefresh::Keep;
    }

    /// The cursor a list gets on reload, before clamping.
    pub open spec fn wanted_cursor(&self, data: ProjectData, i: int) -> int {
        match self.after_refresh {
            AfterRefresh::FocusCard { list, card } if list == i => card as int,
            AfterRefresh::FocusLastCard if i == self.selected() => data.lists@[i].cards@.len() - 1,
            _ => if i < self.list_selections@.len() {
                self.list_selections@[i] as int
            } else {
                0
            },
        }
    }

    pub open spec fn wanted_list(&self, data: ProjectData) -> int {
        match self.after_refresh {
            AfterRefresh::SelectLastList => data.lists@.len() - 1,
            _ => self.selected(),
        }
    }

    /// Rebuilds the board from freshly loaded data. Each list keeps its
    /// cursor, a cursor set by the last operation is put in place, and every
    /// cursor is then clamped to what it selects.
    pub fn refresh(&mut self, data: ProjectData)
        requires
            old(self).wf(),
        ensures
            final(self).wf(),
            final(self).data == data,
            final(self).selected_list_index == clamp(
                old(self).wanted_list(data),
                data.lists@.len() as int,
            ),
            forall|i: int|
                0 <= i < data.lists@.len() ==> #[trigger] final(self).list_selections@[i] == clamp(
                    old(self).wanted_cursor(data, i),
                    data.lists@[i].cards@.len() as int,
                ),
            final(self).after_refresh == AfterRefresh::Keep,
            final(self).popup == old(self).popup,
            final(self).focus == old(self).focus,
            final(self).project_id == old(self).project_id,
            final(self).delete_selection == old(self).delete_selection,
    {
        let n = data.lists.len();
        let wanted_list: usize = match self.after_refresh {
            AfterRefresh::SelectLastList => if n > 0 { n - 1 } else { 0 },
            _ => self.selected_list_index,
        };
        let selected = clamp_index(wanted_list, n);
        let mut cursors: Vec<usize> = Vec::new();
        let mut i: usize = 0;
        while i < n
            invariant
                n == data.lists@.len(),
                i <= n,
                selected == clamp(old(self).wanted_list(data), n as int),
                cursors@.len() == i,
                *self == *old(self),
                forall|j: int|
                    0 <= j < i ==> #[trigger] cursors@[j] == clamp(
                        old(self).wanted_cursor(data, j),
                        data.lists@[j].cards@.len() as int,
                    ),
            decreases n - i,
        {
            let len = data.lists[i].cards.len();
            let wanted: usize = match self.after_refresh {
                AfterRefresh::FocusCard { list, card } if list == i => card,
                AfterRefresh::FocusLastCard if i == self.selected_list_index => if len > 0 {
                    len - 1
                } else {
                    0
                },
                _ => if i < self.list_selections.len() {
                    self.list_selections[i]
                } else {
                    0
                },
            };
            cursors.push(clamp_index(wanted, len));
            i += 1;
        }
        self.data = data;
        self.list_selections = cursors;
        self.selected_list_index = selected;
        self.after_refresh = AfterRefresh::Keep;
    }
}

/// The position after the last card of a list, 0 for an empty list.
pub open spec fn next_position(list: ProjectList) -> int {
    if list.cards@.len() == 0 {
        0
    } else {
        list.cards@.last().position + 1
    }
}

impl OpenProject {
    /// The focused card of the selected list, if there is one.
    pub fn get_card(&self) -> (r: Option<&OpenProjectCard>)
        requires
            self.wf(),
        ensures
            self.has_selected_card() ==> r == Some(&self.selected_card()),
            !self.has_selected_card() ==> r.is_none(),
    {
        if self.selected_list_index < self.list_selections.len() {
            let focused = self.list_selections[self.selected_list_index];
            let cards = &self.data.lists[self.selected_list_index].cards;
            if focused < cards.len() {
                return Some(&cards[focused]);
            }
        }
        None
    }

    /// `L` on the list pane: the selected list swaps with its right neighbour
    /// and stays selected.
    pub fn increment_list_position(&mut self) -> (r: Option<StoreOp>)
        requires
            old(self).wf(),
        ensures
            final(self).wf(),
            final(self).data == old(self).data,
            final(self).list_selections@ == old(self).list_selections@,
            final(self).popup == old(self).popup,
            final(self).focus == old(self).focus,
            final(self).delete_selection == old(self).delete_selection,
            final(self).after_refresh == old(self).after_refresh,
            old(self).selected() + 1 < old(self).lists().len() ==> {
                &&& r == Some(
                    StoreOp::IncrementListPosition {
                        id: old(self).lists()[old(self).selected()].id,
                        next_id: old(self).lists()[old(self).selected() + 1].id,
                    },
                )
                &&& final(self).selected() == old(self).selected() + 1
            },
            !(old(self).selected() + 1 < old(self).lists().len()) ==> {
                &&& r.is_none()
                &&& final(self).selected() == old(self).selected()
            },
    {
        let i = self.selected_list_index;
        if self.data.lists.len() > 0 && i < self.data.lists.len() - 1 {
            let id = self.data.lists[i].id;
            let next_id = self.data.lists[i + 1].id;
            self.selected_list_index = i + 1;
            Some(StoreOp::IncrementListPosition { id, next_id })
        } else {
            None
        }
    }

    /// `H` on the list pane: the selected list swaps with its left neighbour
    /// and stays selected.
    pub fn decrement_list_position(&mut self) -> (r: Option<StoreOp>)
        requires
            old(self).wf(),
        ensures
            final(self).wf(),
            final(self).data == old(self).data,
            final(self).list_selections@ == old(self).list_selections@,
            final(self).popup == old(self).popup,
            final(self).focus == old(self).focus,
            final(self).delete_selection == old(self).delete_selection,
            final(self).after_refresh == old(self).after_refresh,
            old(self).selected() > 0 ==> {
                &&& r == Some(
                    StoreOp::DecrementListPosition {
                        id: old(self).lists()[old(self).selected()].id,
                        prev_id: old(self).lists()[old(self).selected() - 1].id,
                    },
                )
                &&& final(self).selected() == old(self).selected() - 1
            },
            old(self).selected() == 0 ==> {
                &&& r.is_none()
                &&& final(self).selected() == 0
            },
    {
        let i = self.selected_list_index;
        if i > 0 {
            let id = self.data.lists[i].id;
            let prev_id = self.data.lists[i - 1].id;
            self.selected_list_index = i - 1;
            Some(StoreOp::DecrementListPosition { id, prev_id })
        } else {
            None
        }
    }

    /// `J` on the card pane: the focused card swaps with the one below it
    /// and stays focused.
    pub fn increment_card_position(&mut self) -> (r: Option<StoreOp>)
        requires
            old(self).wf(),
        ensures
            final(self).wf(),
            final(self).data == old(self).data,
            final(self).selected_list_index == old(self).selected_list_index,
            final(self).popup == old(self).popup,
            final(self).focus == old(self).focus,
            final(self).delete_selection == old(self).delete_selection,
            final(self).after_refresh == old(self).after_refresh,
            old(self).has_selected_card() && old(self).cursor() + 1 < old(self).cards_len(
                old(self).selected(),
            ) ==> {
                &&& r == Some(
                    StoreOp::IncrementCardPosition {
                        id: old(self).selected_card().id,
                        next_id: old(self).lists()[old(self).selected()].cards@[old(self).cursor()
                            + 1].id,
                    },
                )
                &&& final(self).list_selections@ == old(self).list_selections@.update(
                    old(self).selected(),
                    (old(self).cursor() + 1) as usize,
                )
            },
            !(old(self).has_selected_card() && old(self).cursor() + 1 < old(self).cards_len(
                old(self).selected(),
            )) ==> {
                &&& r.is_none()
                &&& final(self).list_selections@ == old(self).list_selections@
            },
    {
        let i = self.selected_list_index;
        if i < self.data.lists.len() {
            let c = self.list_selections[i];
            let len = self.data.lists[i].cards.len();
            if len > 0 && c < len - 1 {
                let id = self.data.lists[i].cards[c].id;
                let next_id = self.data.lists[i].cards[c + 1].id;
                self.list_selections.set(i, c + 1);
                return Some(StoreOp::IncrementCardPosition { id, next_id });
            }
        }
        None
    }

    /// `K` on the card pane: the focused card swaps with the one above it
    /// and stays focused.
    pub fn decrement_card_position(&mut self) -> (r: Option<StoreOp>)
        requires
            old(self).wf(),
        ensures
            final(self).wf(),
            final(self).data == old(self).data,
            final(self).selected_list_index == old(self).selected_list_index,
            final(self).popup == old(self).popup,
            final(self).focus == old(self).focus,
            final(self).delete_selection == old(self).delete_selection,
            final(self).after_refresh == old(self).after_refresh,
            old(self).has_selected_card() && old(self).cursor() > 0 ==> {
                &&& r == Some(
                    StoreOp::DecrementCardPosition {
                        id: old(self).selected_card().id,
                        prev_id: old(self).lists()[old(self).selected()].cards@[old(self).cursor()
                            - 1].id,
                    },
                )
                &&& final(self).list_selections@ == old(self).list_selections@.update(
                    old(self).selected(),
                    (old(self).cursor() - 1) as usize,
                )
            },
            !(old(self).has_selected_card() && old(self).cursor() > 0) ==> {
                &&& r.is_none()
                &&& final(self).list_selections@ == old(self).list_selections@
            },
    {
        let i = self.selected_list_index;
        if i < self.data.lists.len() {
            let c = self.list_selections[i];
            if c > 0 && c < self.data.lists[i].cards.len() {
                let id = self.data.lists[i].cards[c].id;
                let prev_id = self.data.lists[i].cards[c - 1].id;
                self.list_selections.set(i, c - 1);
                return Some(StoreOp::DecrementCardPosition { id, prev_id });
            }
        }
        None
    }

    /// Whether the focused card can move to list `dest`: there is one, `dest`
    /// is another list, and the positions involved fit the position column.
    pub open spec fn can_move_to(&self, dest: int) -> bool {
        &&& self.has_selected_card()
        &&& 0 <= dest < self.lists().len()
        &&& dest != self.selected()
        &&& 0 <= next_position(self.lists()[dest]) <= i32::MAX
        &&& self.cursor() <= i32::MAX
    }

    /// The focused card goes to the end of list `dest`, which becomes the
    /// selected list with that card focused once the board is reloaded; the
    /// old list's cursor moves up by one (not below the top).
    pub fn move_card_to(&mut self, dest: usize) -> (r: Option<StoreOp>)
        requires
            old(self).wf(),
        ensures
            final(self).wf(),
            final(self).data == old(self).data,
            final(self).popup == old(self).popup,
            final(self).focus == old(self).focus,
            final(self).delete_selection == old(self).delete_selection,
            old(self).can_move_to(dest as int) ==> {
                &&& r == Some(
                    StoreOp::MoveCard {
                        card_id: old(self).selected_card().id,
                        from_list: old(self).lists()[old(self).selected()].id,
                        to_list: old(self).lists()[dest as int].id,
                        position: next_position(old(self).lists()[dest as int]) as i32,
                        vacated: old(self).cursor() as i32,
                    },
                )
                &&& final(self).list_selections@ == old(self).list_selections@.update(
                    old(self).selected(),
                    if old(self).cursor() > 0 {
                        (old(self).cursor() - 1) as usize
                    } else {
                        0usize
                    },
                )
                &&& final(self).after_refresh == (AfterRefresh::FocusCard {
                    list: dest,
                    card: next_position(old(self).lists()[dest as int]) as usize,
                })
                &&& final(self).selected_list_index == dest
            },
            !old(self).can_move_to(dest as int) ==> {
                &&& r.is_none()
                &&& final(self).list_selections@ == old(self).list_selections@
                &&& final(self).selected_list_index == old(self).selected_list_index
                &&& final(self).after_refresh == old(self).after_refresh
            },
    {
        let i = self.selected_list_index;
        let n = self.data.lists.len();
        if i >= n || dest >= n || dest == i {
            return None;
        }
        let c = self.list_selections[i];
        if c >= self.data.lists[i].cards.len() || c > i32::MAX as usize {
            return None;
        }
        let dest_len = self.data.lists[dest].cards.len();
        let position: i32 = if dest_len == 0 {
            0
        } else {
            let last = self.data.lists[dest].cards[dest_len - 1].position;
            if last < -1 || last == i32::MAX {
                return None;
            }
            last + 1
        };
        let op = StoreOp::MoveCard {
            card_id: self.data.lists[i].cards[c].id,
            from_list: self.data.lists[i].id,
            to_list: self.data.lists[dest].id,
            position,
            vacated: c as i32,
        };
        let up = if c > 0 {
            c - 1
        } else {
            0
        };
        self.list_selections.set(i, up);
        self.after_refresh = AfterRefresh::FocusCard { list: dest, card: position as usize };
        self.selected_list_index = dest;
        Some(op)
    }

    /// `H` on the card pane: the focused card moves to the list on the left.
    pub fn move_card_left(&mut self) -> (r: Option<StoreOp>)
        requires
            old(self).wf(),
        ensures
            final(self).wf(),
            old(self).selected() == 0 ==> r.is_none() && final(self).list_selections@
                == old(self).list_selections@ && final(self).selected_list_index == 0,
            old(self).selected() > 0 ==> r == Some(
                StoreOp::MoveCard {
                    card_id: old(self).selected_card().id,
                    from_list: old(self).lists()[old(self).selected()].id,
                    to_list: old(self).lists()[old(self).selected() - 1].id,
                    position: next_position(old(self).lists()[old(self).selected() - 1]) as i32,
                    vacated: old(self).cursor() as i32,
                },
            ) || !old(self).can_move_to(old(self).selected() - 1) && r.is_none(),
            old(self).selected() > 0 && old(self).can_move_to(old(self).selected() - 1) ==> {
                &&& final(self).selected() == old(self).selected() - 1
                &&& final(self).list_selections@ == old(self).list_selections@.update(
                    old(self).selected(),
                    if old(self).cursor() > 0 {
                        (old(self).cursor() - 1) as usize
                    } else {
                        0usize
                    },
                )
                &&& final(self).after_refresh == (AfterRefresh::FocusCard {
                    list: (old(self).selected() - 1) as usize,
                    card: next_position(old(self).lists()[old(self).selected() - 1]) as usize,
                })
            },
            final(self).data == old(self).data,
            final(self).popup == old(self).popup,
            final(self).focus == old(self).focus,
            final(self).delete_selection == old(self).delete_selection,
    {
        if self.selected_list_index == 0 {
            return None;
        }
        let dest = self.selected_list_index - 1;
        self.move_card_to(dest)
    }

    /// `L` on the card pane: the focused card moves to the list on the right.
    pub fn move_card_right(&mut self) -> (r: Option<StoreOp>)
        requires
            old(self).wf(),
        ensures
            final(self).wf(),
            old(self).selected() + 1 >= old(self).lists().len() ==> r.is_none()
                && final(self).list_selections@ == old(self).list_selections@
                && final(self).selected_list_index == old(self).selected_list_index,
            old(self).selected() + 1 < old(self).lists().len() ==> r == Some(
                StoreOp::MoveCard {
                    card_id: old(self).selected_card().id,
                    from_list: old(self).lists()[old(self).selected()].id,
                    to_list: old(self).lists()[old(self).selected() + 1].id,
                    position: next_position(old(self).lists()[old(self).selected() + 1]) as i32,
                    vacated: old(self).cursor() as i32,
                },
            ) || !old(self).can_move_to(old(self).selected() + 1) && r.is_none(),
            old(self).selected() + 1 < old(self).lists().len() && old(self).can_move_to(
                old(self).selected() + 1,
            ) ==> {
                &&& final(self).selected() == old(self).selected() + 1
                &&& final(self).list_selections@ == old(self).list_selections@.update(
                    old(self).selected(),
                    if old(self).cursor() > 0 {
                        (old(self).cursor() - 1) as usize
                    } else {
                        0usize
                    },
                )
                &&& final(self).after_refresh == (AfterRefresh::FocusCard {
                    list: (old(self).selected() + 1) as usize,
                    card: next_position(old(self).lists()[old(self).selected() + 1]) as usize,
                })
            },
            final(self).data == old(self).data,
            final(self).popup == old(self).popup,
            final(self).focus == old(self).focus,
            final(self).delete_selection == old(self).delete_selection,
    {
        if self.data.lists.len() == 0 || self.selected_list_index >= self.data.lists.len() - 1 {
            return None;
        }
        let dest = self.selected_list_index + 1;
        self.move_card_to(dest)
    }
}

impl OpenProject {
    /// `c`: flips the focused card's completed flag.
    pub fn toggle_card_completed(&self) -> (r: Option<StoreOp>)
        requires
            self.wf(),
        ensures
            self.has_selected_card() ==> r == Some(
                StoreOp::SetCardCompleted {
                    card_id: self.selected_card().id,
                    completed: !self.selected_card().completed,
                },
            ),
            !self.has_selected_card() ==> r.is_none(),
    {
        match self.get_card() {
            Some(card) => Some(StoreOp::SetCardCompleted { card_id: card.id, completed: !card.completed }),
            None => None,
        }
    }

    /// `i`: flips the focused card's important flag.
    pub fn toggle_card_important(&self) -> (r: Option<StoreOp>)
        requires
            self.wf(),
        ensures
            self.has_selected_card() ==> r == Some(
                StoreOp::SetCardImportant {
                    card_id: self.selected_card().id,
                    important: !self.selected_card().important,
                },
            ),
            !self.has_selected_card() ==> r.is_none(),
    {
        match self.get_card() {
            Some(card) => Some(StoreOp::SetCardImportant { card_id: card.id, important: !card.important }),
            None => None,
        }
    }

    /// Deletes the selected list; the list to its left becomes selected.
    pub fn delete_list(&mut self) -> (r: Option<StoreOp>)
        requires
            old(self).wf(),
        ensures
            final(self).wf(),
            final(self).data == old(self).data,
            final(self).list_selections@ == old(self).list_selections@,
            final(self).popup == old(self).popup,
            final(self).after_refresh == old(self).after_refresh,
            old(self).lists().len() > 0 ==> r == Some(
                StoreOp::DeleteList { list_id: old(self).lists()[old(self).selected()].id },
            ),
            old(self).lists().len() == 0 ==> r.is_none(),
            final(self).selected() == if old(self).selected() > 0 {
                old(self).selected() - 1
            } else {
                0
            },
    {
        let i = self.selected_list_index;
        if i < self.data.lists.len() {
            let list_id = self.data.lists[i].id;
            if i > 0 {
                self.selected_list_index = i - 1;
            }
            Some(StoreOp::DeleteList { list_id })
        } else {
            None
        }
    }

    /// Deletes the focused card; the cursor stays on the same place, or
    /// moves up when the last card goes.
    pub fn delete_card(&mut self) -> (r: Option<StoreOp>)
        requires
            old(self).wf(),
        ensures
            final(self).wf(),
            final(self).data == old(self).data,
            final(self).selected_list_index == old(self).selected_list_index,
            final(self).popup == old(self).popup,
            final(self).after_refresh == old(self).after_refresh,
            old(self).has_selected_card() ==> {
                &&& r == Some(
                    StoreOp::DeleteCard {
                        card_id: old(self).selected_card().id,
                        list_id: old(self).lists()[old(self).selected()].id,
                    },
                )
                &&& final(self).list_selections@ == old(self).list_selections@.update(
                    old(self).selected(),
                    (if old(self).cursor() > 0 && old(self).cursor() == old(self).cards_len(
                        old(self).selected(),
                    ) - 1 {
                        old(self).cursor() - 1
                    } else {
                        old(self).cursor()
                    }) as usize,
                )
            },
            !old(self).has_selected_card() ==> r.is_none() && final(self).list_selections@
                == old(self).list_selections@,
    {
        let i = self.selected_list_index;
        if i < self.data.lists.len() {
            let c = self.list_selections[i];
            let len = self.data.lists[i].cards.len();
            if c < len {
                let op = StoreOp::DeleteCard {
                    card_id: self.data.lists[i].cards[c].id,
                    list_id: self.data.lists[i].id,
                };
                if c > 0 && c == len - 1 {
                    self.list_selections.set(i, c - 1);
                }
                return Some(op);
            }
        }
        None
    }

    /// `j` and `k` inside the selected list move its cursor down and up.
    pub fn scroll(&mut self, key: Key)
        requires
            old(self).wf(),
        ensures
            final(self).project_id == old(self).project_id,
            final(self).wf(),
            final(self).data == old(self).data,
            final(self).selected_list_index == old(self).selected_list_index,
            final(self).popup == old(self).popup,
            final(self).focus == old(self).focus,
            final(self).delete_selection == old(self).delete_selection,
            final(self).after_refresh == old(self).after_refresh,
            final(self).list_selections@ == if old(self).has_selected_card() && key == Key::Char('j')
                && old(self).cursor() + 1 < old(self).cards_len(old(self).selected()) {
                old(self).list_selections@.update(old(self).selected(), (old(self).cursor() + 1) as usize)
            } else if old(self).has_selected_card() && key == Key::Char('k') && old(self).cursor() > 0 {
                old(self).list_selections@.update(old(self).selected(), (old(self).cursor() - 1) as usize)
            } else {
                old(self).list_selections@
            },
    {
        let i = self.selected_list_index;
        if i < self.data.lists.len() {
            let c = self.list_selections[i];
            let len = self.data.lists[i].cards.len();
            if key == Key::Char('j') && len > 0 && c < len - 1 {
                self.list_selections.set(i, c + 1);
            } else if key == Key::Char('k') && c > 0 && c < len {
                self.list_selections.set(i, c - 1);
            }
        }
    }

    /// The host stored the write the board asked for: a confirmed delete
    /// leaves delete mode only now, so a failed one can be cancelled with
    /// `n` and nothing else.
    pub fn stored(&self, app: &mut AppState)
        ensures
            old(app).display.mode == Mode::Delete ==> final(app).display == (crate::focus::Display {
                view: old(app).display.view,
                mode: Mode::Navigation,
            }),
            old(app).display.mode != Mode::Delete ==> final(app).display == old(app).display,
            final(app).covered@ == old(app).covered@,
            final(app).module == old(app).module,
            final(app).popup == old(app).popup,
            final(app).running == old(app).running,
    {
        if app.is_delete_mode() {
            app.set_mode(Mode::Navigation);
        }
    }

    /// The card popup finished: the board shows no popup and, after a new
    /// card, focuses the last card of the selected list once reloaded.
    pub fn card_popup_closed(&mut self)
        requires
            old(self).wf(),
        ensures
            final(self).wf(),
            final(self).popup == OpenProjectPopup::NoPopup,
            final(self).after_refresh == if old(self).popup == OpenProjectPopup::NewCard {
                AfterRefresh::FocusLastCard
            } else {
                old(self).after_refresh
            },
            final(self).data == old(self).data,
            final(self).list_selections@ == old(self).list_selections@,
            final(self).selected_list_index == old(self).selected_list_index,
    {
        if self.popup == OpenProjectPopup::NewCard {
            self.after_refresh = AfterRefresh::FocusLastCard;
        }
        self.popup = OpenProjectPopup::NoPopup;
    }

    fn list_data(&self, i: usize) -> (r: ListData)
        requires
            i < self.data.lists@.len(),
        ensures
            r.id == self.data.lists@[i as int].id,
            r.title@ == self.data.lists@[i as int].title@,
    {
        ListData {
            project_id: match self.project_id {
                Some(p) => p,
                None => 0,
            },
            id: self.data.lists[i].id,
            title: self.data.lists[i].title.clone(),
        }
    }

    fn open_editor(&mut self, app: &mut AppState, popup: OpenProjectPopup, kind: PopupKind)
        requires
            old(self).wf(),
            popup != OpenProjectPopup::EditList || old(self).edit_list.data.is_some(),
        ensures
            final(self).edit_list == old(self).edit_list,
            final(self).project_id == old(self).project_id,
            final(self).wf(),
            final(self).popup == popup,
            final(self).data == old(self).data,
            final(self).list_selections@ == old(self).list_selections@,
            final(self).selected_list_index == old(self).selected_list_index,
            final(self).delete_selection == old(self).delete_selection,
            final(self).focus == old(self).focus,
            final(self).after_refresh == old(self).after_refresh,
            final(app).stack() == crate::focus::opened(old(app).stack(), kind),
    {
        self.popup = popup;
        app.open_popup(kind);
    }

    /// Handles a key on the list pane, in browsing mode.
    fn list_pane_key(&mut self, app: &mut AppState, key: Key) -> (r: BoardAction)
        requires
            old(self).wf(),
            old(self).focus == Focus::List,
        ensures
            final(self).wf(),
            final(self).data == old(self).data,
            key != Key::Char('H') && key != Key::Char('L') ==> final(self).selected_list_index
                == old(self).selected_list_index,
            key == Key::Char('j') ==> final(self).focus == Focus::Card && r is Stay,
            key == Key::Char('d') ==> r is Stay && final(self).list_selections@ == old(self).list_selections@,
            key == Key::Char('d') && old(self).project_id.is_some() && old(self).lists().len() > 0
                ==> final(self).delete_selection == DeleteSelection::List && final(app).display == (
            crate::focus::Display { view: old(app).display.view, mode: Mode::Delete }),
            key == Key::Char('d') && !(old(self).project_id.is_some() && old(self).lists().len() > 0)
                ==> final(app).display == old(app).display,
            key == Key::Char('n') ==> r is Stay && final(self).popup == OpenProjectPopup::NewList
                && final(app).stack() == crate::focus::opened(old(app).stack(), PopupKind::Editor),
            key == Key::Char('e') && old(self).lists().len() > 0 ==> r is Stay && final(self).popup
                == OpenProjectPopup::EditList && final(self).edit_list.data.unwrap().id == old(self).lists()[old(self).selected()].id && final(app).stack() == crate::focus::opened(
                old(app).stack(),
                PopupKind::Editor,
            ),
    {
        match key {
            Key::Char('H') => match self.decrement_list_position() {
                Some(op) => BoardAction::Apply(op),
                None => BoardAction::Stay,
            },
            Key::Char('L') => match self.increment_list_position() {
                Some(op) => BoardAction::Apply(op),
                None => BoardAction::Stay,
            },
            Key::Char('j') => {
                self.focus = Focus::Card;
                BoardAction::Stay
            },
            Key::Char('d') => {
                if self.project_id.is_some() && self.data.lists.len() > 0 {
                    self.delete_selection = DeleteSelection::List;
                    app.set_mode(Mode::Delete);
                }
                BoardAction::Stay
            },
            Key::Char('e') => {
                let i = self.selected_list_index;
                if i < self.data.lists.len() {
                    let list = self.list_data(i);
                    self.edit_list.set(list);
                    self.open_editor(app, OpenProjectPopup::EditList, PopupKind::Editor);
                }
                BoardAction::Stay
            },
            Key::Char('n') => {
                self.open_editor(app, OpenProjectPopup::NewList, PopupKind::Editor);
                BoardAction::Stay
            },
            _ => BoardAction::Stay,
        }
    }

    /// Handles a key on the card pane of a board with lists, in browsing mode.
    fn card_pane_key(&mut self, app: &mut AppState, key: Key) -> (r: BoardAction)
        requires
            old(self).wf(),
            old(self).focus == Focus::Card,
            old(self).lists().len() > 0,
        ensures
            final(self).wf(),
            final(self).data == old(self).data,
            key != Key::Char('H') && key != Key::Char('L') ==> final(self).selected_list_index
                == old(self).selected_list_index,
            key == Key::Char('c') ==> match old(self).toggle_card_completed_spec() {
                Some(op) => r == BoardAction::Apply(op),
                None => r is Stay,
            },
            key == Key::Char('i') ==> match old(self).toggle_card_important_spec() {
                Some(op) => r == BoardAction::Apply(op),
                None => r is Stay,
            },
            key == Key::Char('d') ==> r is Stay && final(self).list_selections@ == old(self).list_selections@,
            key == Key::Char('d') && old(self).has_selected_card() ==> final(self).delete_selection
                == DeleteSelection::Card && final(app).display == (crate::focus::Display {
                view: old(app).display.view,
                mode: Mode::Delete,
            }),
            key == Key::Char('d') && !old(self).has_selected_card() ==> final(app).display == old(app).display,
            key == Key::Char('n') && old(self).project_id.is_some() ==> r == (BoardAction::NewCard {
                project_id: old(self).project_id.unwrap(),
                list_id: old(self).lists()[old(self).selected()].id,
            }) && final(self).popup == OpenProjectPopup::NewCard && final(app).stack()
                == crate::focus::opened(old(app).stack(), PopupKind::Editor),
            key == Key::Char('e') && old(self).project_id.is_some() && old(self).has_selected_card() ==> r
                == (BoardAction::EditCard {
                project_id: old(self).project_id.unwrap(),
                list_id: old(self).lists()[old(self).selected()].id,
                card_id: old(self).selected_card().id,
            }) && final(self).popup == OpenProjectPopup::EditCard && final(app).stack()
                == crate::focus::opened(old(app).stack(), PopupKind::Editor),
            key == Key::Enter && old(self).has_selected_card() ==> r == (BoardAction::ViewCard {
                card_id: old(self).selected_card().id,
            }) && final(self).popup == OpenProjectPopup::ViewCard && final(app).stack()
                == crate::focus::opened(old(app).stack(), PopupKind::Viewer),
    {
        let i = self.selected_list_index;
        if key == Key::Char('k') && self.list_selections[i] == 0 {
            self.focus = Focus::List;
        } else {
            self.scroll(key);
        }
        match key {
            Key::Char('J') => match self.increment_card_position() {
                Some(op) => BoardAction::Apply(op),
                None => BoardAction::Stay,
            },
            Key::Char('K') => match self.decrement_card_position() {
                Some(op) => BoardAction::Apply(op),
                None => BoardAction::Stay,
            },
            Key::Char('H') => match self.move_card_left() {
                Some(op) => BoardAction::Apply(op),
                None => BoardAction::Stay,
            },
            Key::Char('L') => match self.move_card_right() {
                Some(op) => BoardAction::Apply(op),
                None => BoardAction::Stay,
            },
            Key::Enter => match self.get_card() {
                Some(card) => {
                    let card_id = card.id;
                    self.open_editor(app, OpenProjectPopup::ViewCard, PopupKind::Viewer);
                    BoardAction::ViewCard { card_id }
                },
                None => BoardAction::Stay,
            },
            Key::Char('n') => match self.project_id {
                Some(project_id) => {
                    let list_id = self.data.lists[i].id;
                    self.open_editor(app, OpenProjectPopup::NewCard, PopupKind::Editor);
                    BoardAction::NewCard { project_id, list_id }
                },
                None => BoardAction::Stay,
            },
            Key::Char('e') => match self.project_id {
                Some(project_id) => match self.get_card() {
                    Some(card) => {
                        let card_id = card.id;
                        let list_id = self.data.lists[i].id;
                        self.open_editor(app, OpenProjectPopup::EditCard, PopupKind::Editor);
                        BoardAction::EditCard { project_id, list_id, card_id }
                    },
                    None => BoardAction::Stay,
                },
                None => BoardAction::Stay,
            },
            Key::Char('c') => match self.toggle_card_completed() {
                Some(op) => BoardAction::Apply(op),
                None => BoardAction::Stay,
            },
            Key::Char('i') => match self.toggle_card_important() {
                Some(op) => BoardAction::Apply(op),
                None => BoardAction::Stay,
            },
            Key::Char('d') => {
                if self.get_card().is_some() {
                    self.delete_selection = DeleteSelection::Card;
                    app.set_mode(Mode::Delete);
                }
                BoardAction::Stay
            },
            _ => BoardAction::Stay,
        }
    }

    pub open spec fn toggle_card_completed_spec(&self) -> Option<StoreOp> {
        if self.has_selected_card() {
            Some(
                StoreOp::SetCardCompleted {
                    card_id: self.selected_card().id,
                    completed: !self.selected_card().completed,
                },
            )
        } else {
            None
        }
    }

    pub open spec fn toggle_card_important_spec(&self) -> Option<StoreOp> {
        if self.has_selected_card() {
            Some(
                StoreOp::SetCardImportant {
                    card_id: self.selected_card().id,
                    important: !self.selected_card().important,
                },
            )
        } else {
            None
        }
    }
}

/// Whether the open popup is one of the card popups, which the host drives.
pub open spec fn is_card_popup(p: OpenProjectPopup) -> bool {
    p == OpenProjectPopup::ViewCard || p == OpenProjectPopup::NewCard || p
        == OpenProjectPopup::EditCard
}

impl OpenProject {
    /// Routes a key: to the open popup; else, while browsing, to list
    /// selection and the focused pane; else, while a delete waits for
    /// confirmation, `y` performs it and `n` drops it.
    pub fn key_event_handler(&mut self, app: &mut AppState, key: Key) -> (r: BoardAction)
        requires
            old(self).wf(),
        ensures
            final(self).wf(),
            old(app).display.view == Screen::Popup && is_card_popup(old(self).popup) ==> r is CardPopupKey
                && final(app).stack() == old(app).stack(),
            old(app).display == crate::focus::base_display() && key == Key::Char('[') ==> r is Leave,
            old(app).display == crate::focus::base_display() && key == Key::Char('h') ==> final(self).selected() == if old(self).selected() > 0 {
                old(self).selected() - 1
            } else {
                0
            },
            old(app).display == crate::focus::base_display() && key == Key::Char('l') ==> final(self).selected() == if old(self).selected() + 1 < old(self).lists().len() {
                old(self).selected() + 1
            } else {
                old(self).selected()
            },
            old(app).display.view != Screen::Popup && old(app).display.mode == Mode::Delete && key
                == Key::Char('n') ==> final(app).display.mode == Mode::Navigation && final(self).delete_selection
                == DeleteSelection::Nothing && r is Stay && final(self).data == old(self).data
                && final(self).list_selections@ == old(self).list_selections@ && final(self).selected_list_index
                == old(self).selected_list_index,
            old(app).display.view != Screen::Popup && old(app).display.mode == Mode::Delete && key
                == Key::Char('y') ==> {
                &&& final(self).delete_selection == DeleteSelection::Nothing
                &&& final(self).data == old(self).data
                &&& (old(self).delete_selection == DeleteSelection::Card && old(self).has_selected_card()
                    ==> r == BoardAction::Apply(
                    StoreOp::DeleteCard {
                        card_id: old(self).selected_card().id,
                        list_id: old(self).lists()[old(self).selected()].id,
                    },
                ) && final(app).display == old(app).display)
                &&& (old(self).delete_selection == DeleteSelection::List && old(self).lists().len()
                    > 0 ==> r == BoardAction::Apply(
                    StoreOp::DeleteList { list_id: old(self).lists()[old(self).selected()].id },
                ) && final(app).display == old(app).display)
                &&& (r is Stay ==> final(app).display.mode == Mode::Navigation)
            },
            old(app).display == crate::focus::base_display() ==> {
                &&& key == Key::Char('n') && (old(self).focus == Focus::List || old(self).lists().len() == 0)
                    ==> r is Stay && final(self).popup == OpenProjectPopup::NewList && final(app).stack()
                    == crate::focus::opened(old(app).stack(), PopupKind::Editor)
                &&& key == Key::Char('e') && old(self).focus == Focus::List && old(self).lists().len() > 0
                    ==> r is Stay && final(self).popup == OpenProjectPopup::EditList
                    && final(self).edit_list.data.unwrap().id == old(self).lists()[old(self).selected()].id
                    && final(app).stack() == crate::focus::opened(old(app).stack(), PopupKind::Editor)
                &&& key == Key::Enter && old(self).focus == Focus::Card && old(self).has_selected_card() ==> r
                    == (BoardAction::ViewCard { card_id: old(self).selected_card().id })
                    && final(self).popup == OpenProjectPopup::ViewCard && final(app).stack()
                    == crate::focus::opened(old(app).stack(), PopupKind::Viewer)
                &&& key == Key::Char('n') && old(self).focus == Focus::Card && old(self).lists().len() > 0
                    && old(self).project_id.is_some() ==> r == (BoardAction::NewCard {
                    project_id: old(self).project_id.unwrap(),
                    list_id: old(self).lists()[old(self).selected()].id,
                }) && final(self).popup == OpenProjectPopup::NewCard && final(app).stack()
                    == crate::focus::opened(old(app).stack(), PopupKind::Editor)
                &&& key == Key::Char('e') && old(self).focus == Focus::Card && old(self).has_selected_card()
                    && old(self).project_id.is_some() ==> r == (BoardAction::EditCard {
                    project_id: old(self).project_id.unwrap(),
                    list_id: old(self).lists()[old(self).selected()].id,
                    card_id: old(self).selected_card().id,
                }) && final(self).popup == OpenProjectPopup::EditCard && final(app).stack()
                    == crate::focus::opened(old(app).stack(), PopupKind::Editor)
                &&& key == Key::Char('d') ==> {
                    &&& r is Stay
                    &&& final(self).data == old(self).data
                    &&& (final(app).display.mode == Mode::Delete <==> old(self).can_delete())
                    &&& !old(self).can_delete() ==> final(app).display == old(app).display
                    &&& old(self).can_delete() ==> final(self).delete_selection == if old(self).focus
                        == Focus::List {
                        DeleteSelection::List
                    } else {
                        DeleteSelection::Card
                    }
                }
            },
    {
        if app.is_popup() {
            match self.popup {
                OpenProjectPopup::NewList => {
                    return match self.new_list.key_event_handler(app, key) {
                        ListEditorResult::Stay => BoardAction::Stay,
                        ListEditorResult::Save(op) => {
                            self.popup = OpenProjectPopup::NoPopup;
                            self.after_refresh = AfterRefresh::SelectLastList;
                            BoardAction::Apply(op)
                        },
                        ListEditorResult::Close => {
                            self.popup = OpenProjectPopup::NoPopup;
                            BoardAction::Stay
                        },
                    };
                },
                OpenProjectPopup::EditList => {
                    return match self.edit_list.key_event_handler(app, key) {
                        ListEditorResult::Stay => BoardAction::Stay,
                        ListEditorResult::Save(op) => {
                            self.popup = OpenProjectPopup::NoPopup;
                            BoardAction::Apply(op)
                        },
                        ListEditorResult::Close => {
                            self.popup = OpenProjectPopup::NoPopup;
                            BoardAction::Stay
                        },
                    };
                },
                OpenProjectPopup::NoPopup => {},
                _ => {
                    return BoardAction::CardPopupKey;
                },
            }
        }
        if app.is_default() && app.is_normal_mode() {
            let n = self.data.lists.len();
            match key {
                Key::Char('[') => {
                    return BoardAction::Leave;
                },
                Key::Char('h') => {
                    if self.selected_list_index > 0 {
                        self.selected_list_index = self.selected_list_index - 1;
                    }
                },
                Key::Char('l') => {
                    if n > 0 && self.selected_list_index < n - 1 {
                        self.selected_list_index = self.selected_list_index + 1;
                    }
                },
                _ => {},
            }
            if self.focus == Focus::List {
                return self.list_pane_key(app, key);
            } else if n == 0 {
                if key == Key::Char('n') {
                    self.open_editor(app, OpenProjectPopup::NewList, PopupKind::Editor);
                }
                return BoardAction::Stay;
            } else {
                return self.card_pane_key(app, key);
            }
        }
        if app.is_delete_mode() {
            if key == Key::Char('y') {
                let op = match self.delete_selection {
                    DeleteSelection::List => self.delete_list(),
                    DeleteSelection::Card => self.delete_card(),
                    DeleteSelection::Nothing => None,
                };
                self.delete_selection = DeleteSelection::Nothing;
                return match op {
                    Some(op) => BoardAction::Apply(op),
                    None => {
                        app.set_mode(Mode::Navigation);
                        BoardAction::Stay
                    },
                };
            } else if key == Key::Char('n') {
                app.set_mode(Mode::Navigation);
                self.delete_selection = DeleteSelection::Nothing;
            }
        }
        BoardAction::Stay
    }
}

/// Card `c`, shown at index `j` of the list with id `g`, is a row of the
/// card table in that list at position `j`.
pub open spec fn card_row(rows: Seq<Row>, c: OpenProjectCard, g: i32, j: int) -> bool {
    &&& c.position == j
    &&& exists|x: int| 0 <= x < rows.len() && rows[x] == (Row { id: c.id, group: g, position: j as i32 })
}

/// The board shows exactly what the card table holds: list ids are
/// distinct, each card sits at its position in its list, and each list's
/// group has no other rows.
pub open spec fn mirrors(data: ProjectData, rows: Seq<Row>) -> bool {
    &&& forall|a: int, b: int|
        0 <= a < data.lists@.len() && 0 <= b < data.lists@.len() && a != b ==> #[trigger] data.lists@[a].id
            != #[trigger] data.lists@[b].id
    &&& forall|i: int, j: int|
        0 <= i < data.lists@.len() && 0 <= j < data.lists@[i].cards@.len() ==> #[trigger] card_row(
            rows,
            data.lists@[i].cards@[j],
            data.lists@[i].id,
            j,
        )
    &&& forall|i: int| 0 <= i < data.lists@.len() ==> count_in(rows, #[trigger] data.lists@[i].id)
        == data.lists@[i].cards@.len()
}

/// The board's move, performed on a dense card table that the board
/// mirrors: the card becomes the last row of the destination list, at
/// position |destination| (the position the board's write names); the cards
/// after it in its old list move up by one; nothing else changes; and every
/// list stays dense. When the card was the last of its list, moving it back
/// gives the table it started from.
pub proof fn lemma_board_move_in_store(b: OpenProject, rows: Seq<Row>, dest: int)
    requires
        b.wf(),
        ledger_wf(rows),
        mirrors(b.data, rows),
        b.can_move_to(dest),
        rows.len() < i32::MAX,
    ensures
        ({
            let c = b.selected_card();
            let from = b.lists()[b.selected()];
            let to = b.lists()[dest];
            let k = index_of(rows, c.id);
            let m = moved(rows, k, to.id);
            &&& 0 <= k < rows.len()
            &&& next_position(to) == to.cards@.len()
            &&& ledger_wf(m)
            &&& m[k] == (Row { id: c.id, group: to.id, position: to.cards@.len() as i32 })
            &&& forall|x: int| 0 <= x < rows.len() && x != k ==> #[trigger] m[x] == lowered(
                rows[x],
                from.id,
                b.cursor(),
            )
            &&& b.cursor() == from.cards@.len() - 1 ==> moved(m, k, from.id) == rows
        }),
{
    let c = b.selected_card();
    let i = b.selected();
    let from = b.lists()[i];
    let to = b.lists()[dest];
    assert(card_row(rows, c, from.id, b.cursor()));
    let w = choose|x: int| 0 <= x < rows.len() && rows[x] == (Row { id: c.id, group: from.id, position: b.cursor() as i32 });
    let k = index_of(rows, c.id);
    assert(rows[w].id == c.id);
    assert(k == w);
    assert(from.id != to.id);
    assert(count_in(rows, to.id) == to.cards@.len());
    assert(group_dense(rows, to.id));
    lemma_dense_highest(rows, to.id);
    if to.cards@.len() > 0 {
        assert(card_row(rows, to.cards@[to.cards@.len() - 1], to.id, to.cards@.len() - 1));
    }
    lemma_moved_wf(rows, k, to.id);
    assert(count_in(rows, from.id) == from.cards@.len());
    if b.cursor() == from.cards@.len() - 1 {
        lemma_move_round_trip(rows, k, to.id);
    }
}

} // verus!
