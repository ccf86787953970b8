//! The project editor of the projects screen: its focus runs through every
//! stop in turn (the title, the description, the focused label, "Add
//! Label", then each button), and Tab walks the label fields cell by cell.
use crate::focus::{AppState, Mode};
use crate::key::Key;
use crate::project_management::project_editor::{
    self, all_labels_valid, build_save, edits_label, label_input_wf, labels_valid,
    merge_loaded_labels, new_label_input, plan_matches_parts, cut, filled_by, stored_before,
    Action, EditorResult, FocusedPane, LabelCol, LabelInput, LabelOption, ProjectRecord,
    LABEL_COLOR_REQUIRED_LENGTH, PROJECT_DESCRIPTION_MAX_LENGTH,
};
use crate::text_input::{typed, TextInput};
use vstd::arithmetic::div_mod::{lemma_mod_add_multiples_vanish, lemma_mod_self_0, lemma_small_mod};
use vstd::prelude::*;

verus! {

pub const PROJECT_TITLE_MAX_LENGTH: usize = 100;

/// A label as stored.
#[derive(Clone, Debug)]
pub struct ProjectLabel {
    pub project_id: i32,
    pub id: i32,
    pub title: String,
    pub color: String,
}

/// A stored label as the label inputs read it.
pub open spec fn as_stored(l: ProjectLabel) -> project_editor::ProjectLabel {
    project_editor::ProjectLabel { project_id: l.project_id, id: l.id, title: l.title, color: l.color }
}

pub open spec fn stored_seq(labels: Seq<ProjectLabel>) -> Seq<project_editor::ProjectLabel> {
    labels.map_values(|l: ProjectLabel| as_stored(l))
}

pub struct ProjectEditor {
    pub new: bool,
    pub data: Option<ProjectRecord>,
    pub focused_pane: FocusedPane,
    pub action: Action,
    pub title: TextInput,
    pub description: TextInput,
    pub labels: Vec<LabelInput>,
    pub selected_label: usize,
    pub focused_label_option: LabelOption,
    pub label_col: LabelCol,
}

/// The stop after `r`: the focused label is skipped when there is none.
pub open spec fn next_stop(r: int, n: int) -> int {
    if r == 1 {
        if n > 0 {
            2
        } else {
            3
        }
    } else if r == 5 {
        0
    } else {
        r + 1
    }
}

/// The stop before `r`: the exact reverse of `next_stop`.
pub open spec fn prev_stop(r: int, n: int) -> int {
    if r == 3 {
        if n > 0 {
            2
        } else {
            1
        }
    } else if r == 0 {
        5
    } else {
        r - 1
    }
}

impl ProjectEditor {
    pub open spec fn wf(&self) -> bool {
        &&& self.title.wf()
        &&& self.title.max == PROJECT_TITLE_MAX_LENGTH
        &&& self.description.wf()
        &&& self.description.max == PROJECT_DESCRIPTION_MAX_LENGTH
        &&& forall|i: int| 0 <= i < self.labels@.len() ==> label_input_wf(#[trigger] self.labels@[i])
        &&& (self.labels@.len() > 0 ==> self.selected_label < self.labels@.len())
    }

    /// The focus stop: title 0, description 1, a label 2, "Add Label" 3,
    /// the save button 4, the cancel button 5.
    pub open spec fn stop(&self) -> int {
        match self.focused_pane {
            FocusedPane::Title => 0,
            FocusedPane::Description => 1,
            FocusedPane::Labels => if self.focused_label_option == LabelOption::Labels {
                2
            } else {
                3
            },
            FocusedPane::Actions => if self.action == Action::Save {
                4
            } else {
                5
            },
        }
    }

    /// The label cell in focus: two per label, its title then its color.
    pub open spec fn cell(&self) -> int {
        2 * self.selected_label + if self.label_col == LabelCol::Color {
            1int
        } else {
            0int
        }
    }

    pub fn init() -> (r: ProjectEditor)
        ensures
            r.wf(),
            !r.new,
            r.stop() == 0,
            r.labels@.len() == 0,
    {
        ProjectEditor {
            new: false,
            data: None,
            focused_pane: FocusedPane::Title,
            action: Action::Save,
            title: TextInput::new(PROJECT_TITLE_MAX_LENGTH),
            description: TextInput::new(PROJECT_DESCRIPTION_MAX_LENGTH),
            labels: Vec::new(),
            selected_label: 0,
            focused_label_option: LabelOption::Labels,
            label_col: LabelCol::Title,
        }
    }

    pub fn set_new(self) -> (r: ProjectEditor)
        requires
            self.wf(),
        ensures
            r.wf(),
            r.new,
            r.stop() == self.stop(),
            r.title == self.title,
            r.description == self.description,
            r.data == self.data,
            r.labels@ == self.labels@,
            r.selected_label == self.selected_label,
            r.label_col == self.label_col,
    {
        ProjectEditor { new: true, ..self }
    }

    /// Loads a project for editing: its title and description fill the
    /// fields, and each stored label fills the input that edits it, or a new
    /// one after the others.
    pub fn set_project(&mut self, project: ProjectRecord, labels: Vec<ProjectLabel>)
        requires
            old(self).wf(),
            old(self).labels@.len() + labels@.len() <= usize::MAX,
        ensures
            final(self).title.input@ == cut(project.title@, PROJECT_TITLE_MAX_LENGTH as nat),
            final(self).description.input@ == match project.description {
                Some(d) => cut(d@, PROJECT_DESCRIPTION_MAX_LENGTH as nat),
                None => Seq::empty(),
            },
            forall|j: int|
                0 <= j < labels@.len() && (forall|j2: int| j < j2 < labels@.len() ==> labels@[j2].id != labels@[j].id)
                    ==> filled_by(final(self).labels@, as_stored(#[trigger] labels@[j])),
            forall|i: int|
                0 <= i < old(self).labels@.len() ==> (#[trigger] final(self).labels@[i]).id == old(self).labels@[i].id
                    && (!stored_before(stored_seq(labels@), labels@.len() as int, old(self).labels@[i].id)
                    ==> final(self).labels@[i] == old(self).labels@[i]),
            forall|i: int|
                old(self).labels@.len() <= i < final(self).labels@.len() ==> stored_before(
                    stored_seq(labels@),
                    labels@.len() as int,
                    (#[trigger] final(self).labels@[i]).id,
                ),
            final(self).wf(),
            final(self).new == old(self).new,
            final(self).data == Some(project),
            project.title@.len() <= PROJECT_TITLE_MAX_LENGTH ==> final(self).title.input@ == project.title@,
            project.description.is_none() ==> final(self).description.input@.len() == 0,
            forall|j: int| 0 <= j < labels@.len() ==> edits_label(final(self).labels@, #[trigger] labels@[j].id),
            labels@.len() > 0 ==> final(self).selected_label == 0,
    {
        let title = project.title.clone();
        let description = match &project.description {
            Some(d) => d.clone(),
            None => String::new(),
        };
        self.data = Some(project);
        self.title.set_input(title);
        self.description.set_input(description);
        let mut stored: Vec<project_editor::ProjectLabel> = Vec::new();
        let mut k: usize = 0;
        while k < labels.len()
            invariant
                k <= labels@.len(),
                stored@.len() == k,
                forall|j: int| 0 <= j < k ==> #[trigger] stored@[j] == as_stored(labels@[j]),
            decreases labels@.len() - k,
        {
            let l = &labels[k];
            stored.push(
                project_editor::ProjectLabel {
                    project_id: l.project_id,
                    id: l.id,
                    title: l.title.clone(),
                    color: l.color.clone(),
                },
            );
            k += 1;
        }
        merge_loaded_labels(&mut self.labels, &stored);
        if labels.len() > 0 {
            self.selected_label = 0;
        }
        assert forall|j: int| 0 <= j < labels@.len() implies edits_label(self.labels@, #[trigger] labels@[j].id) by {
            assert(stored@[j].id == labels@[j].id);
        }
        assert forall|j: int|
            0 <= j < labels@.len() && (forall|j2: int| j < j2 < labels@.len() ==> labels@[j2].id != labels@[j].id)
                implies filled_by(self.labels@, as_stored(#[trigger] labels@[j])) by {
            assert(stored@[j] == as_stored(labels@[j]));
            assert forall|j2: int| j < j2 < stored@.len() implies stored@[j2].id != stored@[j].id by {
                assert(stored@[j2] == as_stored(labels@[j2]));
            }
        }
        assert(stored@ =~= stored_seq(labels@));
    }

    /// Back to the title with the save button chosen and the fields cleared.
    pub fn reset(&mut self)
        requires
            old(self).wf(),
        ensures
            final(self).wf(),
            final(self).stop() == 0,
            final(self).action == Action::Save,
            final(self).title.input@.len() == 0,
            final(self).description.input@.len() == 0,
            final(self).new == old(self).new,
            final(self).data == old(self).data,
            final(self).labels@ == old(self).labels@,
    {
        self.focused_pane = FocusedPane::Title;
        self.action = Action::Save;
        self.title.reset();
        self.description.reset();
    }

    pub fn next_focus(&mut self)
        requires
            old(self).wf(),
        ensures
            final(self).title == old(self).title,
            final(self).description == old(self).description,
            final(self).wf(),
            final(self).stop() == next_stop(old(self).stop(), old(self).labels@.len() as int),
            final(self).new == old(self).new,
            final(self).data == old(self).data,
            final(self).labels@ == old(self).labels@,
            final(self).selected_label == old(self).selected_label,
            final(self).label_col == old(self).label_col,
    {
        match self.focused_pane {
            FocusedPane::Title => self.focused_pane = FocusedPane::Description,
            FocusedPane::Description => {
                self.focused_pane = FocusedPane::Labels;
                self.focused_label_option = if self.labels.len() == 0 {
                    LabelOption::AddLabel
                } else {
                    LabelOption::Labels
                };
            },
            FocusedPane::Labels => {
                if self.focused_label_option == LabelOption::Labels {
                    self.focused_label_option = LabelOption::AddLabel;
                } else {
                    self.focused_pane = FocusedPane::Actions;
                    self.action = Action::Save;
                }
            },
            FocusedPane::Actions => {
                if self.action == Action::Save {
                    self.action = Action::Cancel;
                } else {
                    self.focused_pane = FocusedPane::Title;
                    self.action = Action::Save;
                }
            },
        }
    }

    pub fn prev_focus(&mut self)
        requires
            old(self).wf(),
        ensures
            final(self).title == old(self).title,
            final(self).description == old(self).description,
            final(self).wf(),
            final(self).stop() == prev_stop(old(self).stop(), old(self).labels@.len() as int),
            final(self).new == old(self).new,
            final(self).data == old(self).data,
            final(self).labels@ == old(self).labels@,
            final(self).selected_label == old(self).selected_label,
            final(self).label_col == old(self).label_col,
    {
        match self.focused_pane {
            FocusedPane::Title => {
                self.focused_pane = FocusedPane::Actions;
                self.action = Action::Cancel;
            },
            FocusedPane::Description => self.focused_pane = FocusedPane::Title,
            FocusedPane::Labels => {
                if self.focused_label_option == LabelOption::AddLabel && self.labels.len() > 0 {
                    self.focused_label_option = LabelOption::Labels;
                } else {
                    self.focused_pane = FocusedPane::Description;
                }
            },
            FocusedPane::Actions => {
                if self.action == Action::Save {
                    self.focused_pane = FocusedPane::Labels;
                    self.focused_label_option = LabelOption::AddLabel;
                } else {
                    self.action = Action::Save;
                }
            },
        }
    }

    /// On a focused label: from its title to its color, and from its color
    /// to the next label's title, the first after the last.
    pub fn next_label(&mut self)
        requires
            old(self).wf(),
        ensures
            final(self).title == old(self).title,
            final(self).description == old(self).description,
            final(self).wf(),
            old(self).stop() == 2 && old(self).labels@.len() > 0 ==> final(self).cell() == (old(self).cell()
                + 1) % (2 * old(self).labels@.len() as int),
            old(self).stop() != 2 ==> final(self).cell() == old(self).cell(),
            final(self).stop() == old(self).stop(),
            final(self).new == old(self).new,
            final(self).data == old(self).data,
            final(self).labels@ == old(self).labels@,
    {
        if self.focused_pane == FocusedPane::Labels && self.focused_label_option == LabelOption::Labels {
            let n = self.labels.len();
            proof {
                let m = 2 * n as int;
                if n > 0 {
                    lemma_mod_self_0(m);
                    if old(self).cell() + 1 < m {
                        lemma_small_mod((old(self).cell() + 1) as nat, m as nat);
                    }
                }
            }
            if self.label_col == LabelCol::Color {
                if n == 0 || self.selected_label == n - 1 {
                    self.selected_label = 0;
                } else {
                    self.selected_label = self.selected_label + 1;
                }
                self.label_col = LabelCol::Title;
            } else {
                self.label_col = LabelCol::Color;
            }
        }
    }

    /// The exact reverse of `next_label`.
    pub fn prev_label(&mut self)
        requires
            old(self).wf(),
        ensures
            final(self).title == old(self).title,
            final(self).description == old(self).description,
            final(self).wf(),
            old(self).stop() == 2 && old(self).labels@.len() > 0 ==> final(self).cell() == (old(self).cell()
                + 2 * old(self).labels@.len() as int - 1) % (2 * old(self).labels@.len() as int),
            old(self).stop() != 2 ==> final(self).cell() == old(self).cell(),
            final(self).stop() == old(self).stop(),
            final(self).new == old(self).new,
            final(self).data == old(self).data,
            final(self).labels@ == old(self).labels@,
    {
        if self.focused_pane == FocusedPane::Labels && self.focused_label_option == LabelOption::Labels {
            let n = self.labels.len();
            proof {
                let m = 2 * n as int;
                let c = old(self).cell();
                if n > 0 {
                    if c == 0 {
                        lemma_small_mod((m - 1) as nat, m as nat);
                    } else {
                        lemma_mod_add_multiples_vanish(c - 1, m);
                        lemma_small_mod((c - 1) as nat, m as nat);
                        assert(c + m - 1 == m + (c - 1));
                    }
                }
            }
            if self.label_col == LabelCol::Title {
                if self.selected_label == 0 {
                    self.selected_label = if n > 0 {
                        n - 1
                    } else {
                        0
                    };
                } else {
                    self.selected_label = self.selected_label - 1;
                }
                self.label_col = LabelCol::Color;
            } else {
                self.label_col = LabelCol::Title;
            }
        }
    }

    /// Appends a new label holding `default_color`, focuses its title and
    /// starts typing.
    pub fn add_label(&mut self, app: &mut AppState, default_color: String)
        requires
            old(self).wf(),
            old(self).labels@.len() < usize::MAX,
        ensures
            final(self).wf(),
            final(self).labels@.len() == old(self).labels@.len() + 1,
            forall|i: int| 0 <= i < old(self).labels@.len() ==> #[trigger] final(self).labels@[i] == old(self).labels@[i],
            final(self).labels@.last().id.is_none(),
            default_color@.len() <= LABEL_COLOR_REQUIRED_LENGTH ==> final(self).labels@.last().color.input@
                == default_color@,
            final(self).selected_label == old(self).labels@.len(),
            final(self).stop() == if old(self).focused_pane == FocusedPane::Labels {
                2
            } else {
                old(self).stop()
            },
            final(self).label_col == LabelCol::Title,
            final(app).display.mode == Mode::Insert,
            final(self).new == old(self).new,
            final(self).data == old(self).data,
    {
        self.labels.push(new_label_input(default_color));
        self.selected_label = self.labels.len() - 1;
        self.focused_label_option = LabelOption::Labels;
        self.label_col = LabelCol::Title;
        app.set_mode(Mode::Insert);
    }

    /// On the buttons: Save yields the writes when every label is valid
    /// (the fields stay until the host resets the editor), Cancel resets it.
    pub fn save_project(&mut self) -> (r: EditorResult)
        requires
            old(self).wf(),
            old(self).new || old(self).data.is_some(),
        ensures
            final(self).wf(),
            final(self).new == old(self).new,
            final(self).data == old(self).data,
            old(self).focused_pane != FocusedPane::Actions ==> r is Stay && *final(self) == *old(self),
            old(self).stop() == 4 ==> {
                &&& *final(self) == *old(self)
                &&& labels_valid(old(self).labels@) ==> match r {
                    EditorResult::Save(plan) => plan_matches_parts(
                        old(self).new,
                        old(self).data,
                        old(self).title.input@,
                        old(self).description.input@,
                        old(self).labels@,
                        plan,
                    ),
                    _ => false,
                }
                &&& !labels_valid(old(self).labels@) ==> r is Stay
            },
            old(self).stop() == 5 ==> r is Cancel && final(self).stop() == 0,
    {
        if self.focused_pane != FocusedPane::Actions {
            return EditorResult::Stay;
        }
        match self.action {
            Action::Save => {
                if all_labels_valid(&self.labels) {
                    EditorResult::Save(
                        build_save(self.new, &self.data, &self.title, &self.description, &self.labels),
                    )
                } else {
                    EditorResult::Stay
                }
            },
            Action::Cancel => {
                self.reset();
                EditorResult::Cancel
            },
        }
    }

    /// Typing goes to the title or the description; in browsing mode `n`
    /// starts typing, `[` cancels, `j` and `k` move the focus, Tab and
    /// BackTab walk the label cells, and Enter adds a label on "Add Label" or
    /// presses the chosen button; while typing, Tab walks the label cells.
    pub fn key_event_handler(&mut self, app: &mut AppState, key: Key, default_color: String) -> (r: EditorResult)
        requires
            old(self).wf(),
            old(self).new || old(self).data.is_some(),
            old(self).labels@.len() < usize::MAX,
        ensures
            final(self).wf(),
            final(self).new == old(self).new,
            final(self).data == old(self).data,
            old(app).display.mode == Mode::Insert ==> {
                &&& r is Stay
                &&& old(self).focused_pane == FocusedPane::Title ==> final(self).title.input@ == typed(
                    old(self).title.input@,
                    PROJECT_TITLE_MAX_LENGTH as nat,
                    Mode::Insert,
                    key,
                )
                &&& old(self).focused_pane == FocusedPane::Description ==> final(self).description.input@
                    == typed(old(self).description.input@, PROJECT_DESCRIPTION_MAX_LENGTH as nat, Mode::Insert, key)
                &&& key == Key::Tab && old(self).stop() == 2 && old(self).labels@.len() > 0 ==> final(self).cell()
                    == (old(self).cell() + 1) % (2 * old(self).labels@.len() as int)
            },
            old(app).display.mode == Mode::Navigation && key != Key::Char('i') ==> {
                &&& key == Key::Char('n') ==> r is Stay && final(app).display.mode == Mode::Insert && *final(self)
                    == *old(self)
                &&& key == Key::Char('[') ==> r is Cancel && final(self).stop() == 0
                    && final(self).title.input@.len() == 0
                &&& key == Key::Char('j') ==> r is Stay && final(self).stop() == next_stop(
                    old(self).stop(),
                    old(self).labels@.len() as int,
                )
                &&& key == Key::Char('k') ==> r is Stay && final(self).stop() == prev_stop(
                    old(self).stop(),
                    old(self).labels@.len() as int,
                )
                &&& key == Key::Tab && old(self).stop() == 2 && old(self).labels@.len() > 0 ==> r is Stay
                    && final(self).cell() == (old(self).cell() + 1) % (2 * old(self).labels@.len() as int)
                &&& key == Key::BackTab && old(self).stop() == 2 && old(self).labels@.len() > 0 ==> r is Stay
                    && final(self).cell() == (old(self).cell() + 2 * old(self).labels@.len() as int - 1) % (2
                    * old(self).labels@.len() as int)
                &&& key == Key::Enter && old(self).stop() == 3 ==> {
                    &&& r is Stay
                    &&& final(self).labels@.len() == old(self).labels@.len() + 1
                    &&& forall|x: int| 0 <= x < old(self).labels@.len() ==> #[trigger] final(self).labels@[x]
                        == old(self).labels@[x]
                    &&& final(self).labels@.last().id.is_none()
                    &&& final(self).selected_label == old(self).labels@.len()
                    &&& final(self).stop() == 2
                    &&& final(app).display.mode == Mode::Insert
                }
                &&& key == Key::Enter && old(self).stop() < 3 ==> r is Stay && *final(self) == *old(self)
                &&& key == Key::Enter && old(self).stop() == 4 ==> {
                    &&& *final(self) == *old(self)
                    &&& labels_valid(old(self).labels@) ==> match r {
                        EditorResult::Save(plan) => plan_matches_parts(
                            old(self).new,
                            old(self).data,
                            old(self).title.input@,
                            old(self).description.input@,
                            old(self).labels@,
                            plan,
                        ),
                        _ => false,
                    }
                    &&& !labels_valid(old(self).labels@) ==> r is Stay
                }
                &&& key == Key::Enter && old(self).stop() == 5 ==> r is Cancel && final(self).stop() == 0
            },
    {
        match self.focused_pane {
            FocusedPane::Title => self.title.key_event_handler(app, key),
            FocusedPane::Description => self.description.key_event_handler(app, key),
            _ => {},
        }
        if app.is_normal_mode() {
            match key {
                Key::Char('n') => app.set_mode(Mode::Insert),
                Key::Char('[') => {
                    self.reset();
                    return EditorResult::Cancel;
                },
                Key::BackTab => self.prev_label(),
                Key::Tab => self.next_label(),
                Key::Char('j') => self.next_focus(),
                Key::Char('k') => self.prev_focus(),
                Key::Enter => {
                    if self.focused_pane == FocusedPane::Labels && self.focused_label_option
                        == LabelOption::AddLabel {
                        self.add_label(app, default_color);
                    } else {
                        return self.save_project();
                    }
                },
                _ => {},
            }
        }
        if app.is_insert_mode() && key == Key::Tab {
            self.next_label();
        }
        EditorResult::Stay
    }
}

} // verus!
