//! The project editor: title, description, a list of labels with an
//! "Add Label" slot after the last one, and save / cancel buttons. Saving
//! yields the writes to perform; the editor keeps its fields until the
//! host reports that they were stored.
use crate::focus::AppState;
use crate::key::Key;
use crate::focus::Mode;
use crate::text_input::{typed, typed_display, TextInput};
use vstd::arithmetic::div_mod::{lemma_mod_add_multiples_vanish, lemma_mod_self_0, lemma_small_mod};
use vstd::prelude::*;

verus! {

pub const PROJECT_TITLE_MAX_LENGTH: usize = 50;
pub const PROJECT_DESCRIPTION_MAX_LENGTH: usize = 500;
pub const LABEL_TITLE_MAX_LENGTH: usize = 15;
pub const LABEL_COLOR_REQUIRED_LENGTH: usize = 7;

/// The parts of the editor, in focus order.
#[derive(Clone, Copy, Debug, PartialEq, Eq, Structural)]
pub enum FocusedPane {
    Title,
    Description,
    Labels,
    Actions,
}

#[derive(Clone, Copy, Debug, PartialEq, Eq, Structural)]
pub enum Action {
    Save,
    Cancel,
}

/// Whether the labels pane has a label focused or the "Add Label" slot.
#[derive(Clone, Copy, Debug, PartialEq, Eq, Structural)]
pub enum LabelOption {
    Labels,
    AddLabel,
}

/// Which field of the focused label takes typing.
#[derive(Clone, Copy, Debug, PartialEq, Eq, Structural)]
pub enum LabelCol {
    Title,
    Color,
}

/// A label as stored.
#[derive(Clone, Debug)]
pub struct ProjectLabel {
    pub project_id: i32,
    pub id: i32,
    pub title: String,
    pub color: String,
}

/// A project row as loaded for editing.
#[derive(Clone, Debug)]
pub struct ProjectRecord {
    pub id: i32,
    pub title: String,
    pub description: Option<String>,
}

/// A label being edited; `id` is the stored label it edits, if any.
pub struct LabelInput {
    pub id: Option<i32>,
    pub title: TextInput,
    pub color: TextInput,
}

#[derive(Clone, Debug)]
#[allow(inconsistent_fields)]
pub enum ProjectWrite {
    New { title: String, description: Option<String> },
    Edit { id: i32, title: String, description: String },
}

#[derive(Clone, Debug)]
pub enum LabelWrite {
    /// A new label at `position` among the project's labels.
    Insert { title: String, color: String, position: usize },
    /// An edit of a stored label, which keeps its position.
    Update { id: i32, title: String, color: String },
}

/// The writes of one save: the project, then each label in order.
#[derive(Clone, Debug)]
pub struct ProjectSave {
    pub project: ProjectWrite,
    pub labels: Vec<LabelWrite>,
}

/// What a key press in the editor led to.
#[derive(Clone, Debug)]
pub enum EditorResult {
    Stay,
    /// Save: perform the writes, then `reset` the editor and close it.
    Save(ProjectSave),
    /// Cancelled: the editor is reset; close it.
    Cancel,
}

pub open spec fn pane_index(p: FocusedPane) -> int {
    match p {
        FocusedPane::Title => 0,
        FocusedPane::Description => 1,
        FocusedPane::Labels => 2,
        FocusedPane::Actions => 3,
    }
}

pub open spec fn label_input_wf(l: LabelInput) -> bool {
    &&& l.title.wf()
    &&& l.title.max == LABEL_TITLE_MAX_LENGTH
    &&& l.title.required
    &&& l.title.required_len.is_none()
    &&& l.color.wf()
    &&& l.color.max == LABEL_COLOR_REQUIRED_LENGTH
    &&& l.color.required_len == Some(LABEL_COLOR_REQUIRED_LENGTH)
}

pub open spec fn label_valid(l: LabelInput) -> bool {
    l.title.spec_is_valid() && l.color.spec_is_valid()
}

/// The description as stored: none when nothing was typed.
pub open spec fn description_of(s: Seq<char>, d: Option<String>) -> bool {
    match d {
        Some(t) => s.len() > 0 && t@ == s,
        None => s.len() == 0,
    }
}

pub open spec fn label_write_matches(l: LabelInput, w: LabelWrite, i: int, new: bool) -> bool {
    match w {
        LabelWrite::Insert { title, color, position } => {
            &&& (new || l.id.is_none())
            &&& title@ == l.title.input@
            &&& color@ == l.color.input@
            &&& position == i
        },
        LabelWrite::Update { id, title, color } => {
            &&& !new
            &&& l.id == Some(id)
            &&& title@ == l.title.input@
            &&& color@ == l.color.input@
        },
    }
}

/// Some input edits the stored label `id`.
pub open spec fn edits_label(inputs: Seq<LabelInput>, id: i32) -> bool {
    exists|i: int| 0 <= i < inputs.len() && #[trigger] inputs[i].id == Some(id)
}

/// Text cut to at most `max` characters, as a field holds it.
pub open spec fn cut(s: Seq<char>, max: nat) -> Seq<char> {
    if s.len() <= max {
        s
    } else {
        s.subrange(0, max as int)
    }
}

/// The input edits the stored label and holds its title and color.
pub open spec fn fills(input: LabelInput, label: ProjectLabel) -> bool {
    &&& input.id == Some(label.id)
    &&& input.title.input@ == cut(label.title@, LABEL_TITLE_MAX_LENGTH as nat)
    &&& input.color.input@ == cut(label.color@, LABEL_COLOR_REQUIRED_LENGTH as nat)
}

pub open spec fn filled_by(inputs: Seq<LabelInput>, label: ProjectLabel) -> bool {
    exists|i: int| 0 <= i < inputs.len() && #[trigger] fills(inputs[i], label)
}

/// Some label of `labels` before index `k` is the stored label `id`.
pub open spec fn stored_before(labels: Seq<ProjectLabel>, k: int, id: Option<i32>) -> bool {
    exists|j: int| 0 <= j < k && Some(#[trigger] labels[j].id) == id
}

/// Fills each stored label into the input that edits it, or into a new
/// input after the others.
pub fn merge_loaded_labels(inputs: &mut Vec<LabelInput>, labels: &Vec<ProjectLabel>)
    requires
        forall|x: int| 0 <= x < old(inputs)@.len() ==> label_input_wf(#[trigger] old(inputs)@[x]),
        old(inputs)@.len() + labels@.len() <= usize::MAX,
    ensures
        forall|x: int| 0 <= x < final(inputs)@.len() ==> label_input_wf(#[trigger] final(inputs)@[x]),
        final(inputs)@.len() >= old(inputs)@.len(),
        labels@.len() == 0 ==> final(inputs)@ == old(inputs)@,
        forall|j: int| 0 <= j < labels@.len() ==> edits_label(final(inputs)@, #[trigger] labels@[j].id),
        forall|j: int|
            0 <= j < labels@.len() && (forall|j2: int| j < j2 < labels@.len() ==> labels@[j2].id != labels@[j].id)
                ==> filled_by(final(inputs)@, #[trigger] labels@[j]),
        forall|i: int|
            0 <= i < old(inputs)@.len() ==> (#[trigger] final(inputs)@[i]).id == old(inputs)@[i].id && (
            !stored_before(labels@, labels@.len() as int, old(inputs)@[i].id) ==> final(inputs)@[i]
                == old(inputs)@[i]),
        forall|i: int|
            old(inputs)@.len() <= i < final(inputs)@.len() ==> stored_before(
                labels@,
                labels@.len() as int,
                (#[trigger] final(inputs)@[i]).id,
            ),
{
    let mut k: usize = 0;
    while k < labels.len()
        invariant
            forall|x: int| 0 <= x < inputs@.len() ==> label_input_wf(#[trigger] inputs@[x]),
            k <= labels@.len(),
            inputs@.len() <= old(inputs)@.len() + k,
            inputs@.len() >= old(inputs)@.len(),
            k == 0 ==> inputs@ == old(inputs)@,
            old(inputs)@.len() + labels@.len() <= usize::MAX,
            forall|j: int| 0 <= j < k ==> edits_label(inputs@, #[trigger] labels@[j].id),
        forall|j: int|
            0 <= j < k && (forall|j2: int| j < j2 < k ==> labels@[j2].id != labels@[j].id) ==> filled_by(
                inputs@,
                #[trigger] labels@[j],
            ),
        forall|i: int|
            0 <= i < old(inputs)@.len() ==> (#[trigger] inputs@[i]).id == old(inputs)@[i].id && (
            !stored_before(labels@, k as int, old(inputs)@[i].id) ==> inputs@[i] == old(inputs)@[i]),
        forall|i: int|
            old(inputs)@.len() <= i < inputs@.len() ==> stored_before(labels@, k as int, (#[trigger] inputs@[i]).id),
    decreases labels@.len() - k,
    {
        let label = &labels[k];
        let mut title = TextInput::new(LABEL_TITLE_MAX_LENGTH).required();
        title.set_input(label.title.clone());
        let mut color = TextInput::new(LABEL_COLOR_REQUIRED_LENGTH).required_len(LABEL_COLOR_REQUIRED_LENGTH);
        color.set_input(label.color.clone());
        let input = LabelInput { id: Some(label.id), title, color };
        let mut found: Option<usize> = None;
        let mut i: usize = 0;
        while i < inputs.len() && found.is_none()
            invariant
                i <= inputs@.len(),
                match found {
                    Some(f) => f < inputs@.len() && inputs@[f as int].id == Some(label.id),
                    None => true,
                },
            decreases inputs@.len() - i,
        {
            if inputs[i].id == Some(label.id) {
                found = Some(i);
            }
            i += 1;
        }
        assert(label_input_wf(input));
        let ghost before = inputs@;
        match found {
            Some(f) => {
                inputs.remove(f);
                inputs.insert(f, input);
                proof {
                    assert(inputs@ =~= before.update(f as int, input));
                    assert forall|j: int| 0 <= j < k + 1 implies edits_label(inputs@, #[trigger] labels@[j].id) by {
                        if j < k {
                            assert(edits_label(before, labels@[j].id));
                            let w = choose|w: int| 0 <= w < before.len() && #[trigger] before[w].id == Some(labels@[j].id);
                            assert(inputs@[w].id == Some(labels@[j].id));
                        } else {
                            assert(inputs@[f as int].id == Some(labels@[j].id));
                        }
                    }
                }
            },
            None => {
                inputs.push(input);
                proof {
                    assert forall|j: int| 0 <= j < k + 1 implies edits_label(inputs@, #[trigger] labels@[j].id) by {
                        if j < k {
                            assert(edits_label(before, labels@[j].id));
                            let w = choose|w: int| 0 <= w < before.len() && #[trigger] before[w].id == Some(labels@[j].id);
                            assert(inputs@[w] == before[w]);
                        } else {
                            assert(inputs@[before.len() as int].id == Some(labels@[j].id));
                        }
                    }
                }
            },
        }
        proof {
            assert forall|x: int| 0 <= x < inputs@.len() implies label_input_wf(#[trigger] inputs@[x]) by {
                if x < before.len() && inputs@[x] != input {
                    assert(inputs@[x] == before[x]);
                }
            }
            let pos: int = match found {
                Some(f) => f as int,
                None => before.len() as int,
            };
            let lk = labels@[k as int];
            assert(inputs@[pos] == input);
            assert(fills(input, lk));
            assert(pos < before.len() ==> before[pos].id == Some(lk.id));
            assert forall|x: int| 0 <= x < before.len() && x != pos implies #[trigger] inputs@[x] == before[x] by {
            }
            assert(Some(labels@[k as int].id) == input.id);
            assert(stored_before(labels@, k + 1, input.id));
            assert forall|j: int|
                0 <= j < k + 1 && (forall|j2: int| j < j2 < k + 1 ==> labels@[j2].id != labels@[j].id)
                    implies filled_by(inputs@, #[trigger] labels@[j]) by {
                if j < k {
                    assert(labels@[k as int].id != labels@[j].id);
                    assert(filled_by(before, labels@[j]));
                    let w = choose|w: int| 0 <= w < before.len() && #[trigger] fills(before[w], labels@[j]);
                    assert(w != pos);
                    assert(fills(inputs@[w], labels@[j]));
                } else {
                    assert(fills(inputs@[pos], labels@[j]));
                }
            }
            assert forall|i: int| 0 <= i < old(inputs)@.len() implies (#[trigger] inputs@[i]).id
                == old(inputs)@[i].id && (!stored_before(labels@, k + 1, old(inputs)@[i].id) ==> inputs@[i]
                == old(inputs)@[i]) by {
                if i != pos {
                    assert(inputs@[i] == before[i]);
                    if !stored_before(labels@, k + 1, old(inputs)@[i].id) {
                        assert(!stored_before(labels@, k as int, old(inputs)@[i].id)) by {
                            if stored_before(labels@, k as int, old(inputs)@[i].id) {
                                let j = choose|j: int| 0 <= j < k && Some(#[trigger] labels@[j].id) == old(inputs)@[i].id;
                                assert(0 <= j < k + 1 && Some(labels@[j].id) == old(inputs)@[i].id);
                            }
                        }
                    }
                }
            }
            assert forall|i: int| old(inputs)@.len() <= i < inputs@.len() implies stored_before(
                labels@,
                k + 1,
                (#[trigger] inputs@[i]).id,
            ) by {
                if i != pos {
                    assert(inputs@[i] == before[i]);
                    assert(stored_before(labels@, k as int, before[i].id));
                    let j = choose|j: int| 0 <= j < k && Some(#[trigger] labels@[j].id) == before[i].id;
                    assert(0 <= j < k + 1 && Some(labels@[j].id) == inputs@[i].id);
                }
            }
        }
        k += 1;
    }
}

pub struct ProjectEditor {
    pub new: bool,
    pub data: Option<ProjectRecord>,
    pub focused_pane: FocusedPane,
    pub title: TextInput,
    pub description: TextInput,
    pub labels: Vec<LabelInput>,
    pub action: Action,
    pub save_button: String,
    pub selected_label: usize,
    pub focused_label_option: LabelOption,
    pub label_col: LabelCol,
}

impl ProjectEditor {
    pub open spec fn wf(&self) -> bool {
        &&& self.title.wf()
        &&& self.title.max == PROJECT_TITLE_MAX_LENGTH
        &&& self.description.wf()
        &&& self.description.max == PROJECT_DESCRIPTION_MAX_LENGTH
        &&& forall|i: int| 0 <= i < self.labels@.len() ==> label_input_wf(#[trigger] self.labels@[i])
        &&& (self.labels@.len() > 0 ==> self.selected_label < self.labels@.len())
    }

    /// The slot of the labels pane in focus: a label's index, or the number
    /// of labels for the "Add Label" slot after them.
    pub open spec fn label_slot(&self) -> int {
        if self.focused_label_option == LabelOption::AddLabel || self.labels@.len() == 0 {
            self.labels@.len() as int
        } else {
            self.selected_label as int
        }
    }

    pub fn init() -> (r: ProjectEditor)
        ensures
            r.wf(),
            !r.new,
            r.data.is_none(),
            r.focused_pane == FocusedPane::Title,
            r.labels@.len() == 0,
            r.action == Action::Save,
            r.title.input@.len() == 0,
            r.description.input@.len() == 0,
    {
        ProjectEditor {
            new: false,
            data: None,
            focused_pane: FocusedPane::Title,
            title: TextInput::new(PROJECT_TITLE_MAX_LENGTH),
            description: TextInput::new(PROJECT_DESCRIPTION_MAX_LENGTH),
            labels: Vec::new(),
            action: Action::Save,
            save_button: "Save Project".to_owned(),
            selected_label: 0,
            focused_label_option: LabelOption::Labels,
            label_col: LabelCol::Title,
        }
    }

    /// The editor for a new project.
    pub fn set_new(self) -> (r: ProjectEditor)
        requires
            self.wf(),
        ensures
            r.wf(),
            r.new,
            r.save_button@ == "Create New Project"@,
            r.focused_pane == self.focused_pane,
            r.labels@ == self.labels@,
            r.title == self.title,
            r.description == self.description,
            r.data == self.data,
            r.action == self.action,
            r.selected_label == self.selected_label,
            r.focused_label_option == self.focused_label_option,
            r.label_col == self.label_col,
    {
        ProjectEditor { new: true, save_button: "Create New Project".to_owned(), ..self }
    }

    /// Forward through title, description, labels and actions, then back to
    /// the title. Entering an empty labels pane focuses "Add Label".
    pub fn focus_next(&mut self)
        requires
            old(self).wf(),
        ensures
            final(self).new == old(self).new,
            final(self).data == old(self).data,
            final(self).wf(),
            pane_index(final(self).focused_pane) == (pane_index(old(self).focused_pane) + 1) % 4,
            final(self).label_slot() == old(self).label_slot(),
            final(self).labels@ == old(self).labels@,
            final(self).title == old(self).title,
            final(self).description == old(self).description,
    {
        match self.focused_pane {
            FocusedPane::Title => self.focused_pane = FocusedPane::Description,
            FocusedPane::Description => {
                if self.labels.len() == 0 {
                    self.focused_label_option = LabelOption::AddLabel;
                }
                self.focused_pane = FocusedPane::Labels;
            },
            FocusedPane::Labels => self.focused_pane = FocusedPane::Actions,
            FocusedPane::Actions => self.focused_pane = FocusedPane::Title,
        }
    }

    /// The exact reverse of `focus_next`.
    pub fn focus_prev(&mut self)
        requires
            old(self).wf(),
        ensures
            final(self).new == old(self).new,
            final(self).data == old(self).data,
            final(self).wf(),
            pane_index(final(self).focused_pane) == (pane_index(old(self).focused_pane) + 3) % 4,
            final(self).label_slot() == old(self).label_slot(),
            final(self).labels@ == old(self).labels@,
            final(self).title == old(self).title,
            final(self).description == old(self).description,
    {
        match self.focused_pane {
            FocusedPane::Title => self.focused_pane = FocusedPane::Actions,
            FocusedPane::Description => self.focused_pane = FocusedPane::Title,
            FocusedPane::Labels => self.focused_pane = FocusedPane::Description,
            FocusedPane::Actions => {
                if self.labels.len() == 0 {
                    self.focused_label_option = LabelOption::AddLabel;
                }
                self.focused_pane = FocusedPane::Labels;
            },
        }
    }

    /// Tab on a focused label switches between its title and its color.
    pub fn toggle_label_col(&mut self)
        requires
            old(self).wf(),
        ensures
            final(self).new == old(self).new,
            final(self).data == old(self).data,
            final(self).wf(),
            final(self).label_col == if old(self).focused_pane == FocusedPane::Labels
                && old(self).focused_label_option == LabelOption::Labels {
                match old(self).label_col {
                    LabelCol::Title => LabelCol::Color,
                    LabelCol::Color => LabelCol::Title,
                }
            } else {
                old(self).label_col
            },
            final(self).label_slot() == old(self).label_slot(),
            final(self).focused_pane == old(self).focused_pane,
            final(self).labels@ == old(self).labels@,
    {
        if self.focused_pane == FocusedPane::Labels && self.focused_label_option == LabelOption::Labels {
            self.label_col = match self.label_col {
                LabelCol::Title => LabelCol::Color,
                LabelCol::Color => LabelCol::Title,
            };
        }
    }

    /// Down the labels: after the last label comes "Add Label", after it the
    /// first label again.
    pub fn next_label(&mut self)
        requires
            old(self).wf(),
        ensures
            old(self).labels@.len() == 0 ==> final(self).focused_label_option == LabelOption::AddLabel,
            final(self).new == old(self).new,
            final(self).data == old(self).data,
            final(self).wf(),
            final(self).label_slot() == (old(self).label_slot() + 1) % (old(self).labels@.len() as int + 1),
            final(self).focused_pane == old(self).focused_pane,
            final(self).labels@ == old(self).labels@,
            final(self).title == old(self).title,
            final(self).description == old(self).description,
    {
        let n = self.labels.len();
        proof {
            let m = n as int + 1;
            lemma_mod_self_0(m);
            if old(self).label_slot() + 1 < m {
                lemma_small_mod((old(self).label_slot() + 1) as nat, m as nat);
            }
        }
        if n == 0 {
            self.focused_label_option = LabelOption::AddLabel;
        } else if self.focused_label_option == LabelOption::Labels {
            if self.selected_label == n - 1 {
                self.focused_label_option = LabelOption::AddLabel;
            } else {
                self.selected_label = self.selected_label + 1;
            }
        } else {
            self.focused_label_option = LabelOption::Labels;
            self.selected_label = 0;
        }
    }

    /// Up the labels: the exact reverse of `next_label`.
    pub fn prev_label(&mut self)
        requires
            old(self).wf(),
        ensures
            old(self).labels@.len() == 0 ==> final(self).focused_label_option == LabelOption::AddLabel,
            final(self).new == old(self).new,
            final(self).data == old(self).data,
            final(self).wf(),
            final(self).label_slot() == (old(self).label_slot() + old(self).labels@.len() as int)
                % (old(self).labels@.len() as int + 1),
            final(self).focused_pane == old(self).focused_pane,
            final(self).labels@ == old(self).labels@,
            final(self).title == old(self).title,
            final(self).description == old(self).description,
    {
        let n = self.labels.len();
        proof {
            let m = n as int + 1;
            let s = old(self).label_slot();
            if s == 0 {
                lemma_small_mod(n as nat, m as nat);
            } else {
                lemma_mod_add_multiples_vanish(s - 1, m);
                lemma_small_mod((s - 1) as nat, m as nat);
                assert(s + n as int == m + (s - 1));
            }
        }
        if n == 0 {
            self.focused_label_option = LabelOption::AddLabel;
        } else if self.focused_label_option == LabelOption::Labels {
            if self.selected_label == 0 {
                self.focused_label_option = LabelOption::AddLabel;
            } else {
                self.selected_label = self.selected_label - 1;
            }
        } else {
            self.focused_label_option = LabelOption::Labels;
            self.selected_label = n - 1;
        }
    }

    /// Appends a new label, its color field holding `default_color`, and
    /// focuses its title.
    pub fn add_label(&mut self, default_color: String)
        requires
            old(self).wf(),
            old(self).labels@.len() < usize::MAX,
        ensures
            final(self).new == old(self).new,
            final(self).data == old(self).data,
            final(self).wf(),
            final(self).labels@.len() == old(self).labels@.len() + 1,
            forall|i: int| 0 <= i < old(self).labels@.len() ==> #[trigger] final(self).labels@[i] == old(self).labels@[i],
            final(self).labels@.last().id.is_none(),
            final(self).labels@.last().title.input@.len() == 0,
            default_color@.len() <= LABEL_COLOR_REQUIRED_LENGTH ==> final(self).labels@.last().color.input@ == default_color@,
            final(self).selected_label == old(self).labels@.len(),
            final(self).focused_label_option == LabelOption::Labels,
            final(self).label_col == LabelCol::Title,
            final(self).focused_pane == old(self).focused_pane,
    {
        self.labels.push(new_label_input(default_color));
        self.selected_label = self.labels.len() - 1;
        self.focused_label_option = LabelOption::Labels;
        self.label_col = LabelCol::Title;
    }

    /// Loads a project for editing: its title and description fill the
    /// fields, and each stored label fills the input that edits it, or a new
    /// one after the others.
    pub fn set_project(&mut self, project: ProjectRecord, labels: Vec<ProjectLabel>)
        requires
            old(self).wf(),
            old(self).labels@.len() + labels@.len() <= usize::MAX,
        ensures
            final(self).title.input@ == cut(project.title@, PROJECT_TITLE_MAX_LENGTH as nat),
            final(self).description.input@ == match project.description {
                Some(d) => cut(d@, PROJECT_DESCRIPTION_MAX_LENGTH as nat),
                None => Seq::empty(),
            },
            forall|j: int|
                0 <= j < labels@.len() && (forall|j2: int| j < j2 < labels@.len() ==> labels@[j2].id != labels@[j].id)
                    ==> filled_by(final(self).labels@, #[trigger] labels@[j]),
            forall|i: int|
                0 <= i < old(self).labels@.len() ==> (#[trigger] final(self).labels@[i]).id == old(self).labels@[i].id
                    && (!stored_before(labels@, labels@.len() as int, old(self).labels@[i].id)
                    ==> final(self).labels@[i] == old(self).labels@[i]),
            forall|i: int|
                old(self).labels@.len() <= i < final(self).labels@.len() ==> stored_before(
                    labels@,
                    labels@.len() as int,
                    (#[trigger] final(self).labels@[i]).id,
                ),
            final(self).new == old(self).new,
            final(self).wf(),
            final(self).data == Some(project),
            project.title@.len() <= PROJECT_TITLE_MAX_LENGTH ==> final(self).title.input@ == project.title@,
            project.description.is_none() ==> final(self).description.input@.len() == 0,
            forall|j: int| 0 <= j < labels@.len() ==> edits_label(final(self).labels@, #[trigger] labels@[j].id),
            labels@.len() > 0 ==> final(self).selected_label == 0,
    {
        let title = project.title.clone();
        let description = match &project.description {
            Some(d) => d.clone(),
            None => String::new(),
        };
        self.data = Some(project);
        self.title.set_input(title);
        self.description.set_input(description);
        self.load_labels(labels);
    }

    fn load_labels(&mut self, labels: Vec<ProjectLabel>)
        requires
            old(self).wf(),
            old(self).labels@.len() + labels@.len() <= usize::MAX,
        ensures
            forall|j: int|
                0 <= j < labels@.len() && (forall|j2: int| j < j2 < labels@.len() ==> labels@[j2].id != labels@[j].id)
                    ==> filled_by(final(self).labels@, #[trigger] labels@[j]),
            forall|i: int|
                0 <= i < old(self).labels@.len() ==> (#[trigger] final(self).labels@[i]).id == old(self).labels@[i].id
                    && (!stored_before(labels@, labels@.len() as int, old(self).labels@[i].id)
                    ==> final(self).labels@[i] == old(self).labels@[i]),
            forall|i: int|
                old(self).labels@.len() <= i < final(self).labels@.len() ==> stored_before(
                    labels@,
                    labels@.len() as int,
                    (#[trigger] final(self).labels@[i]).id,
                ),
            final(self).wf(),
            final(self).new == old(self).new,
            final(self).data == old(self).data,
            final(self).title == old(self).title,
            final(self).description == old(self).description,
            forall|j: int| 0 <= j < labels@.len() ==> edits_label(final(self).labels@, #[trigger] labels@[j].id),
            labels@.len() > 0 ==> final(self).selected_label == 0,
    {
        merge_loaded_labels(&mut self.labels, &labels);
        if labels.len() > 0 {
            self.selected_label = 0;
        }
    }
}

/// The writes of a save match the fields: the project (new, or the loaded
/// one), then one write per label, in order.
pub open spec fn plan_matches_parts(
    new: bool,
    data: Option<ProjectRecord>,
    title: Seq<char>,
    description: Seq<char>,
    labels: Seq<LabelInput>,
    plan: ProjectSave,
) -> bool {
    &&& match plan.project {
        ProjectWrite::New { title: t, description: d } => new && t@ == title && description_of(
            description,
            d,
        ),
        ProjectWrite::Edit { id, title: t, description: d } => !new && data.is_some() && id
            == data.unwrap().id && t@ == title && d@ == description,
    }
    &&& plan.labels@.len() == labels.len()
    &&& forall|i: int|
        0 <= i < plan.labels@.len() ==> label_write_matches(labels[i], #[trigger] plan.labels@[i], i, new)
}

pub open spec fn plan_matches(ed: ProjectEditor, plan: ProjectSave) -> bool {
    plan_matches_parts(ed.new, ed.data, ed.title.input@, ed.description.input@, ed.labels@, plan)
}

/// The writes that save these fields.
pub fn build_save(
    new: bool,
    data: &Option<ProjectRecord>,
    title: &TextInput,
    description: &TextInput,
    labels: &Vec<LabelInput>,
) -> (r: ProjectSave)
    requires
        new || data.is_some(),
    ensures
        plan_matches_parts(new, *data, title.input@, description.input@, labels@, r),
{
    let project = if new {
        let d = if description.input.as_str().unicode_len() == 0 {
            None
        } else {
            Some(description.input_string())
        };
        ProjectWrite::New { title: title.input_string(), description: d }
    } else {
        let id = match data {
            Some(d) => d.id,
            None => 0,
        };
        ProjectWrite::Edit { id, title: title.input_string(), description: description.input_string() }
    };
    let mut writes: Vec<LabelWrite> = Vec::new();
    let mut i: usize = 0;
    while i < labels.len()
        invariant
            i <= labels@.len(),
            writes@.len() == i,
            forall|j: int| 0 <= j < i ==> label_write_matches(labels@[j], #[trigger] writes@[j], j, new),
        decreases labels@.len() - i,
    {
        let l = &labels[i];
        let t = l.title.input_string();
        let c = l.color.input_string();
        let w = match l.id {
            Some(id) => if new {
                LabelWrite::Insert { title: t, color: c, position: i }
            } else {
                LabelWrite::Update { id, title: t, color: c }
            },
            None => LabelWrite::Insert { title: t, color: c, position: i },
        };
        writes.push(w);
        i += 1;
    }
    ProjectSave { project, labels: writes }
}

/// Whether every label may be saved.
pub fn all_labels_valid(labels: &Vec<LabelInput>) -> (r: bool)
    ensures
        r == labels_valid(labels@),
{
    let mut i: usize = 0;
    while i < labels.len()
        invariant
            i <= labels@.len(),
            forall|j: int| 0 <= j < i ==> label_valid(#[trigger] labels@[j]),
        decreases labels@.len() - i,
    {
        if !(labels[i].title.is_valid() && labels[i].color.is_valid()) {
            return false;
        }
        i += 1;
    }
    true
}

/// A fresh label input holding `color`.
pub fn new_label_input(color: String) -> (r: LabelInput)
    ensures
        label_input_wf(r),
        r.id.is_none(),
        r.title.input@.len() == 0,
        color@.len() <= LABEL_COLOR_REQUIRED_LENGTH ==> r.color.input@ == color@,
{
    let title = TextInput::new(LABEL_TITLE_MAX_LENGTH).required();
    let mut c = TextInput::new(LABEL_COLOR_REQUIRED_LENGTH).required_len(LABEL_COLOR_REQUIRED_LENGTH);
    c.set_input(color);
    LabelInput { id: None, title, color: c }
}

/// Two editors with the same fields, labels compared by their contents.
pub open spec fn same_editor(a: ProjectEditor, b: ProjectEditor) -> bool {
    &&& a.new == b.new
    &&& a.data == b.data
    &&& a.focused_pane == b.focused_pane
    &&& a.title == b.title
    &&& a.description == b.description
    &&& a.labels@ == b.labels@
    &&& a.action == b.action
    &&& a.save_button == b.save_button
    &&& a.selected_label == b.selected_label
    &&& a.focused_label_option == b.focused_label_option
    &&& a.label_col == b.label_col
}

pub open spec fn labels_valid(labels: Seq<LabelInput>) -> bool {
    forall|i: int| 0 <= i < labels.len() ==> label_valid(#[trigger] labels[i])
}

impl ProjectEditor {
    /// Back to the title with the save button focused and the text fields
    /// cleared.
    pub fn reset(&mut self)
        requires
            old(self).wf(),
        ensures
            final(self).wf(),
            final(self).focused_pane == FocusedPane::Title,
            final(self).action == Action::Save,
            final(self).title.input@.len() == 0,
            final(self).description.input@.len() == 0,
            final(self).new == old(self).new,
            final(self).data == old(self).data,
            final(self).labels@ == old(self).labels@,
    {
        self.focused_pane = FocusedPane::Title;
        self.action = Action::Save;
        self.title.reset();
        self.description.reset();
    }

    /// On the actions: Save yields the writes when every label is valid
    /// (the fields stay until the host resets the editor), Cancel resets it.
    pub fn save_project(&mut self) -> (r: EditorResult)
        requires
            old(self).wf(),
            old(self).new || old(self).data.is_some(),
        ensures
            final(self).new == old(self).new,
            final(self).data == old(self).data,
            final(self).wf(),
            old(self).focused_pane != FocusedPane::Actions ==> r is Stay && *final(self) == *old(self),
            old(self).focused_pane == FocusedPane::Actions && old(self).action == Action::Save ==> {
                &&& *final(self) == *old(self)
                &&& labels_valid(old(self).labels@) ==> match r {
                    EditorResult::Save(plan) => plan_matches(*old(self), plan),
                    _ => false,
                }
                &&& !labels_valid(old(self).labels@) ==> r is Stay
            },
            old(self).focused_pane == FocusedPane::Actions && old(self).action == Action::Cancel ==> {
                &&& r is Cancel
                &&& final(self).focused_pane == FocusedPane::Title
                &&& final(self).title.input@.len() == 0
            },
    {
        if self.focused_pane != FocusedPane::Actions {
            return EditorResult::Stay;
        }
        match self.action {
            Action::Save => {
                if all_labels_valid(&self.labels) {
                    EditorResult::Save(
                        build_save(self.new, &self.data, &self.title, &self.description, &self.labels),
                    )
                } else {
                    EditorResult::Stay
                }
            },
            Action::Cancel => {
                self.reset();
                EditorResult::Cancel
            },
        }
    }

    fn label_key(&mut self, app: &mut AppState, key: Key)
        requires
            old(self).wf(),
        ensures
            final(self).wf(),
            final(self).labels@.len() == old(self).labels@.len(),
            final(self).focused_pane == old(self).focused_pane,
            final(self).action == old(self).action,
            final(self).new == old(self).new,
            final(self).data == old(self).data,
            final(self).title == old(self).title,
            final(self).description == old(self).description,
            final(self).focused_label_option == old(self).focused_label_option,
            final(self).selected_label == old(self).selected_label,
            final(self).label_col == old(self).label_col,
            final(self).save_button == old(self).save_button,
            final(app).covered@ == old(app).covered@,
            final(app).display == if old(self).labels@.len() > 0 {
                typed_display(old(app).display, key)
            } else {
                old(app).display
            },
            final(app).module == old(app).module,
            final(app).popup == old(app).popup,
            final(app).running == old(app).running,
            old(self).labels@.len() > 0 ==> {
                let i = old(self).selected_label as int;
                let l = old(self).labels@[i];
                &&& forall|x: int| 0 <= x < old(self).labels@.len() && x != i ==> #[trigger] final(self).labels@[x]
                    == old(self).labels@[x]
                &&& final(self).labels@[i].id == l.id
                &&& old(self).label_col == LabelCol::Title ==> final(self).labels@[i].title.input@ == typed(
                    l.title.input@,
                    l.title.max as nat,
                    old(app).display.mode,
                    key,
                ) && final(self).labels@[i].color == l.color
                &&& old(self).label_col == LabelCol::Color ==> final(self).labels@[i].color.input@ == typed(
                    l.color.input@,
                    l.color.max as nat,
                    old(app).display.mode,
                    key,
                ) && final(self).labels@[i].title == l.title
                &&& old(app).display.mode != Mode::Insert ==> final(self).labels@ == old(self).labels@
            },
            old(self).labels@.len() == 0 ==> final(self).labels@ == old(self).labels@,
    {
        let n = self.labels.len();
        if n == 0 {
            return;
        }
        let i = self.selected_label;
        let ghost before = self.labels@;
        let mut l = self.labels.remove(i);
        if self.label_col == LabelCol::Title {
            l.title.key_event_handler(app, key);
        } else {
            l.color.key_event_handler(app, key);
        }
        self.labels.insert(i, l);
        proof {
            assert(self.labels@ =~= before.update(i as int, l));
            if old(app).display.mode != Mode::Insert {
                assert(l == before[i as int]);
                assert(self.labels@ =~= before);
            }
            assert forall|x: int| 0 <= x < self.labels@.len() implies label_input_wf(#[trigger] self.labels@[x]) by {
                if x != i {
                    assert(self.labels@[x] == before[x]);
                }
            }
        }
    }

    /// Typing goes to the focused field; in browsing mode `[` cancels, `J`
    /// and `K` move between the parts, `j` and `k` move inside the labels or
    /// the buttons, Tab switches a label's column, and Enter adds a label
    /// on "Add Label" or presses the focused button.
    pub fn key_event_handler(&mut self, app: &mut AppState, key: Key, default_color: String) -> (r: EditorResult)
        requires
            old(self).wf(),
            old(self).new || old(self).data.is_some(),
            old(self).labels@.len() < usize::MAX,
        ensures
            final(self).wf(),
            final(self).new == old(self).new,
            final(self).data == old(self).data,
            old(app).display.mode == Mode::Insert ==> {
                &&& r is Stay
                &&& old(self).focused_pane == FocusedPane::Title ==> final(self).title.input@ == typed(
                    old(self).title.input@,
                    PROJECT_TITLE_MAX_LENGTH as nat,
                    Mode::Insert,
                    key,
                )
                &&& old(self).focused_pane == FocusedPane::Description ==> final(self).description.input@
                    == typed(old(self).description.input@, PROJECT_DESCRIPTION_MAX_LENGTH as nat, Mode::Insert, key)
                &&& old(self).focused_pane == FocusedPane::Labels && old(self).labels@.len() > 0 ==> {
                    let i = old(self).selected_label as int;
                    let l = old(self).labels@[i];
                    &&& old(self).label_col == LabelCol::Title ==> final(self).labels@[i].title.input@
                        == typed(l.title.input@, LABEL_TITLE_MAX_LENGTH as nat, Mode::Insert, key)
                    &&& old(self).label_col == LabelCol::Color ==> final(self).labels@[i].color.input@
                        == typed(l.color.input@, LABEL_COLOR_REQUIRED_LENGTH as nat, Mode::Insert, key)
                }
            },
            old(app).display.mode == Mode::Navigation && key != Key::Char('i') ==> {
                &&& key == Key::Char('[') ==> r is Cancel && final(self).focused_pane == FocusedPane::Title
                    && final(self).title.input@.len() == 0 && final(self).description.input@.len() == 0
                &&& key == Key::Char('J') ==> r is Stay && pane_index(final(self).focused_pane) == (
                pane_index(old(self).focused_pane) + 1) % 4 && final(self).label_slot() == old(self).label_slot()
                &&& key == Key::Char('K') ==> r is Stay && pane_index(final(self).focused_pane) == (
                pane_index(old(self).focused_pane) + 3) % 4 && final(self).label_slot() == old(self).label_slot()
                &&& key == Key::Char('j') && old(self).focused_pane == FocusedPane::Labels ==> r is Stay
                    && final(self).label_slot() == (old(self).label_slot() + 1) % (old(self).labels@.len() as int + 1)
                &&& key == Key::Char('k') && old(self).focused_pane == FocusedPane::Labels ==> r is Stay
                    && final(self).label_slot() == (old(self).label_slot() + old(self).labels@.len() as int) % (
                old(self).labels@.len() as int + 1)
                &&& key == Key::Char('j') && old(self).focused_pane == FocusedPane::Actions ==> r is Stay
                    && final(self).action == Action::Cancel
                &&& key == Key::Char('k') && old(self).focused_pane == FocusedPane::Actions ==> r is Stay
                    && final(self).action == Action::Save
                &&& (key == Key::Tab || key == Key::BackTab) ==> r is Stay && final(self).label_col == if old(self).focused_pane == FocusedPane::Labels && old(self).focused_label_option == LabelOption::Labels {
                    match old(self).label_col {
                        LabelCol::Title => LabelCol::Color,
                        LabelCol::Color => LabelCol::Title,
                    }
                } else {
                    old(self).label_col
                }
                &&& key == Key::Enter && old(self).focused_pane == FocusedPane::Labels
                    && old(self).focused_label_option == LabelOption::AddLabel ==> {
                    &&& r is Stay
                    &&& final(self).labels@.len() == old(self).labels@.len() + 1
                    &&& forall|x: int| 0 <= x < old(self).labels@.len() ==> #[trigger] final(self).labels@[x]
                        == old(self).labels@[x]
                    &&& final(self).labels@.last().id.is_none()
                    &&& final(self).labels@.last().title.input@.len() == 0
                    &&& default_color@.len() <= LABEL_COLOR_REQUIRED_LENGTH ==> final(self).labels@.last().color.input@
                        == default_color@
                    &&& final(self).selected_label == old(self).labels@.len()
                    &&& final(self).focused_label_option == LabelOption::Labels
                }
                &&& key == Key::Enter && old(self).focused_pane != FocusedPane::Actions && !(old(self).focused_pane == FocusedPane::Labels && old(self).focused_label_option == LabelOption::AddLabel)
                    ==> r is Stay && same_editor(*final(self), *old(self))
                &&& key == Key::Enter && old(self).focused_pane == FocusedPane::Actions && old(self).action
                    == Action::Save ==> {
                    &&& same_editor(*final(self), *old(self))
                    &&& labels_valid(old(self).labels@) ==> match r {
                        EditorResult::Save(plan) => plan_matches(*old(self), plan),
                        _ => false,
                    }
                    &&& !labels_valid(old(self).labels@) ==> r is Stay
                }
                &&& key == Key::Enter && old(self).focused_pane == FocusedPane::Actions && old(self).action
                    == Action::Cancel ==> r is Cancel && final(self).focused_pane == FocusedPane::Title
                    && final(self).title.input@.len() == 0
            },
    {
        match self.focused_pane {
            FocusedPane::Title => self.title.key_event_handler(app, key),
            FocusedPane::Description => self.description.key_event_handler(app, key),
            FocusedPane::Labels => self.label_key(app, key),
            FocusedPane::Actions => {},
        }
        if app.is_normal_mode() {
            match key {
                Key::Char('[') => {
                    self.reset();
                    return EditorResult::Cancel;
                },
                Key::Char('K') => self.focus_prev(),
                Key::Char('J') => self.focus_next(),
                Key::Char('j') => match self.focused_pane {
                    FocusedPane::Labels => self.next_label(),
                    FocusedPane::Actions => self.action = Action::Cancel,
                    _ => {},
                },
                Key::Char('k') => match self.focused_pane {
                    FocusedPane::Labels => self.prev_label(),
                    FocusedPane::Actions => self.action = Action::Save,
                    _ => {},
                },
                Key::Tab | Key::BackTab => self.toggle_label_col(),
                Key::Enter => {
                    if self.focused_pane == FocusedPane::Labels && self.focused_label_option
                        == LabelOption::AddLabel {
                        self.add_label(default_color);
                    } else {
                        return self.save_project();
                    }
                },
                _ => {},
            }
        }
        EditorResult::Stay
    }
}

} // verus!
