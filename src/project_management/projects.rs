//! The projects module: a list of projects, the editors that create and
//! edit one, and the board of the open project, one page at a time.
use crate::focus::AppState;
use crate::key::Key;
use crate::project_management::open_project::{BoardAction, OpenProject, ProjectData};
use crate::project_management::project_editor::{EditorResult, ProjectEditor, ProjectLabel, ProjectRecord};
use vstd::prelude::*;

verus! {

#[derive(Clone, Copy, Debug, PartialEq, Eq, Structural)]
pub enum Page {
    ListProjects,
    NewProject,
    EditProject,
    OpenProject,
}

/// What the host has to do after a key press on the projects module.
#[derive(Clone, Debug)]
pub enum ProjectsAction {
    Stay,
    /// Load this project and hand it to `open_edit_project`.
    LoadEditProject { project_id: i32 },
    /// Load this project's board and hand it to `open_project.refresh`.
    LoadOpenProject { project_id: i32 },
    /// The project editor asks for these writes; afterwards call `saved`.
    Save(crate::project_management::project_editor::ProjectSave),
    /// What the board asks for.
    Board(BoardAction),
    /// Back on the list: reload the projects.
    ReloadProjects,
}

pub struct Projects {
    pub page: Page,
    /// The project highlighted in the list, if any.
    pub selected_id: Option<i32>,
    /// The ids of the listed projects, in order.
    pub project_ids: Vec<i32>,
    pub new_project: ProjectEditor,
    pub edit_project: ProjectEditor,
    pub open_project: OpenProject,
}

/// `p` is the first place of `id` in `ids`.
pub open spec fn first_index(ids: Seq<i32>, id: i32, p: int) -> bool {
    &&& 0 <= p < ids.len()
    &&& ids[p] == id
    &&& forall|q: int| 0 <= q < p ==> ids[q] != id
}

/// The selection after `j` (down) or `k` (up) in the list of projects: the
/// neighbour of the selected project, staying at the ends; the first project
/// when the selection is not listed.
pub open spec fn moved_selection(ids: Seq<i32>, selected: Option<i32>, down: bool) -> Option<i32> {
    if ids.len() == 0 {
        None
    } else {
        match selected {
            Some(id) => if exists|p: int| first_index(ids, id, p) {
                let p = choose|p: int| first_index(ids, id, p);
                if down {
                    Some(ids[if p + 1 < ids.len() { p + 1 } else { p }])
                } else {
                    Some(ids[if p > 0 { p - 1 } else { p }])
                }
            } else {
                Some(ids[0])
            },
            None => Some(ids[0]),
        }
    }
}

fn find_first(ids: &Vec<i32>, id: i32) -> (r: Option<usize>)
    ensures
        match r {
            Some(p) => first_index(ids@, id, p as int),
            None => !exists|p: int| first_index(ids@, id, p),
        },
{
    let mut i: usize = 0;
    while i < ids.len()
        invariant
            i <= ids@.len(),
            forall|q: int| 0 <= q < i ==> ids@[q] != id,
        decreases ids@.len() - i,
    {
        if ids[i] == id {
            return Some(i);
        }
        i += 1;
    }
    None
}

impl Projects {
    pub open spec fn wf(&self) -> bool {
        &&& self.new_project.wf()
        &&& self.new_project.new
        &&& self.edit_project.wf()
        &&& !self.edit_project.new
        &&& self.open_project.wf()
        &&& (self.page == Page::EditProject ==> self.edit_project.data.is_some())
    }

    pub fn init() -> (r: Projects)
        ensures
            r.wf(),
            r.page == Page::ListProjects,
            r.selected_id.is_none(),
    {
        Projects {
            page: Page::ListProjects,
            selected_id: None,
            project_ids: Vec::new(),
            new_project: ProjectEditor::init().set_new(),
            edit_project: ProjectEditor::init(),
            open_project: OpenProject::init(),
        }
    }

    /// The listed projects were reloaded: the selection stays on its project
    /// when it is still listed, else goes to the first.
    pub fn set_projects(&mut self, ids: Vec<i32>)
        requires
            old(self).wf(),
        ensures
            final(self).wf(),
            final(self).project_ids@ == ids@,
            final(self).page == old(self).page,
            final(self).selected_id == match old(self).selected_id {
                Some(id) => if ids@.contains(id) {
                    Some(id)
                } else if ids@.len() > 0 {
                    Some(ids@[0])
                } else {
                    None
                },
                None => if ids@.len() > 0 {
                    Some(ids@[0])
                } else {
                    None
                },
            },
    {
        let keep = match self.selected_id {
            Some(id) => match find_first(&ids, id) {
                Some(p) => {
                    proof {
                        assert(ids@[p as int] == id);
                    }
                    true
                },
                None => {
                    proof {
                        if ids@.contains(id) {
                            let q = choose|q: int| 0 <= q < ids@.len() && ids@[q] == id;
                            assert(exists|p: int| first_index(ids@, id, p)) by {
                                lemma_first_exists(ids@, id, q);
                            }
                        }
                    }
                    false
                },
            },
            None => false,
        };
        if !keep {
            self.selected_id = if ids.len() > 0 {
                Some(ids[0])
            } else {
                None
            };
        }
        self.project_ids = ids;
    }

    /// `j` and `k` on the list of projects move the selection down and up.
    pub fn move_selection(&mut self, down: bool)
        requires
            old(self).wf(),
        ensures
            final(self).wf(),
            final(self).selected_id == moved_selection(old(self).project_ids@, old(self).selected_id, down),
            final(self).page == old(self).page,
            final(self).project_ids@ == old(self).project_ids@,
    {
        let n = self.project_ids.len();
        if n == 0 {
            self.selected_id = None;
            return;
        }
        let p = match self.selected_id {
            Some(id) => match find_first(&self.project_ids, id) {
                Some(p) => {
                    proof {
                        let c = choose|c: int| first_index(self.project_ids@, id, c);
                        assert(c == p) by {
                            if c < p {
                                assert(self.project_ids@[c] == id);
                            }
                            if p < c {
                                assert(self.project_ids@[p as int] == id);
                            }
                        }
                    }
                    if down {
                        if p + 1 < n {
                            p + 1
                        } else {
                            p
                        }
                    } else if p > 0 {
                        p - 1
                    } else {
                        p
                    }
                },
                None => 0,
            },
            None => 0,
        };
        self.selected_id = Some(self.project_ids[p]);
    }

    /// Shows the editor loaded with a project.
    pub fn open_edit_project(&mut self, project: ProjectRecord, labels: Vec<ProjectLabel>)
        requires
            old(self).wf(),
            old(self).edit_project.labels@.len() + labels@.len() <= usize::MAX,
        ensures
            final(self).wf(),
            final(self).page == Page::EditProject,
            final(self).edit_project.data == Some(project),
    {
        self.edit_project.set_project(project, labels);
        self.page = Page::EditProject;
    }

    /// The writes of a save were stored: the editor is cleared and the list
    /// shown again.
    pub fn saved(&mut self)
        requires
            old(self).wf(),
        ensures
            final(self).wf(),
            final(self).page == Page::ListProjects,
    {
        if self.page == Page::NewProject {
            self.new_project.reset();
        } else if self.page == Page::EditProject {
            self.edit_project.reset();
        }
        self.page = Page::ListProjects;
    }

    /// On the list, `n` opens the new-project editor, `e` asks for the
    /// highlighted project to edit, Enter or `l` opens its board; on any
    /// other page the key goes to that page, and a page that is done brings
    /// the list back.
    pub fn key_event_handler(&mut self, app: &mut AppState, key: Key, default_color: String) -> (r: ProjectsAction)
        requires
            old(self).wf(),
            old(self).new_project.labels@.len() < usize::MAX,
            old(self).edit_project.labels@.len() < usize::MAX,
        ensures
            final(self).wf(),
            old(self).page == Page::ListProjects && old(app).display.mode == crate::focus::Mode::Navigation
                ==> {
                &&& key == Key::Char('n') ==> final(self).page == Page::NewProject && r is Stay
                &&& key == Key::Char('j') ==> r is Stay && final(self).selected_id == moved_selection(
                    old(self).project_ids@,
                    old(self).selected_id,
                    true,
                )
                &&& key == Key::Char('k') ==> r is Stay && final(self).selected_id == moved_selection(
                    old(self).project_ids@,
                    old(self).selected_id,
                    false,
                )
                &&& key == Key::Char('e') ==> match old(self).selected_id {
                    Some(id) => r == (ProjectsAction::LoadEditProject { project_id: id }),
                    None => r is Stay,
                }
                &&& (key == Key::Enter || key == Key::Char('l')) ==> match old(self).selected_id {
                    Some(id) => r == (ProjectsAction::LoadOpenProject { project_id: id }) && final(self).page == Page::OpenProject && final(self).open_project.project_id == Some(id),
                    None => r is Stay,
                }
            },
    {
        match self.page {
            Page::ListProjects => {
                if app.is_normal_mode() {
                    match key {
                        Key::Char('n') => {
                            self.page = Page::NewProject;
                        },
                        Key::Char('j') => self.move_selection(true),
                        Key::Char('k') => self.move_selection(false),
                        Key::Char('e') => {
                            if let Some(id) = self.selected_id {
                                return ProjectsAction::LoadEditProject { project_id: id };
                            }
                        },
                        Key::Enter | Key::Char('l') => {
                            if let Some(id) = self.selected_id {
                                self.open_project.reset();
                                self.open_project.set_project_id(id);
                                self.page = Page::OpenProject;
                                return ProjectsAction::LoadOpenProject { project_id: id };
                            }
                        },
                        _ => {},
                    }
                }
                ProjectsAction::Stay
            },
            Page::NewProject => match self.new_project.key_event_handler(app, key, default_color) {
                EditorResult::Stay => ProjectsAction::Stay,
                EditorResult::Save(plan) => ProjectsAction::Save(plan),
                EditorResult::Cancel => {
                    self.page = Page::ListProjects;
                    ProjectsAction::ReloadProjects
                },
            },
            Page::EditProject => match self.edit_project.key_event_handler(app, key, default_color) {
                EditorResult::Stay => ProjectsAction::Stay,
                EditorResult::Save(plan) => ProjectsAction::Save(plan),
                EditorResult::Cancel => {
                    self.page = Page::ListProjects;
                    ProjectsAction::ReloadProjects
                },
            },
            Page::OpenProject => match self.open_project.key_event_handler(app, key) {
                BoardAction::Leave => {
                    self.page = Page::ListProjects;
                    ProjectsAction::ReloadProjects
                },
                a => ProjectsAction::Board(a),
            },
        }
    }
}

/// A listed id has a first place.
proof fn lemma_first_exists(ids: Seq<i32>, id: i32, q: int)
    requires
        0 <= q < ids.len(),
        ids[q] == id,
    ensures
        exists|p: int| first_index(ids, id, p),
    decreases q,
{
    if exists|r: int| 0 <= r < q && ids[r] == id {
        let r = choose|r: int| 0 <= r < q && ids[r] == id;
        lemma_first_exists(ids, id, r);
    } else {
        assert(first_index(ids, id, q));
    }
}

} // verus!
