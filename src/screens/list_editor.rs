//! The popup that creates a list or renames one.
use crate::focus::AppState;
use crate::key::Key;
use crate::store::StoreOp;
use crate::text_input::TextInput;
use vstd::prelude::*;

verus! {

pub const LIST_TITLE_MAX_LENGTH: usize = 50;

/// A list as loaded for editing.
#[derive(Clone, Debug)]
pub struct ListData {
    pub project_id: i32,
    pub id: i32,
    pub title: String,
}

/// What a key press in the list editor led to.
#[derive(Clone, Debug)]
pub enum ListEditorResult {
    /// Still editing.
    Stay,
    /// Saved: the write to perform; the popup is closed.
    Save(StoreOp),
    /// Closed with nothing to write (a new list with no project to go in).
    Close,
}

pub struct ListEditor {
    pub is_new: bool,
    pub data: Option<ListData>,
    pub width: u16,
    pub height: u16,
    pub project_id: Option<i32>,
    pub title: TextInput,
}

impl ListEditor {
    pub open spec fn wf(&self) -> bool {
        &&& self.title.wf()
        &&& self.title.max == LIST_TITLE_MAX_LENGTH
    }

    /// Whether Enter may save: a new list, or a loaded one.
    pub open spec fn can_save(&self) -> bool {
        self.is_new || self.data.is_some()
    }

    pub fn init() -> (r: ListEditor)
        ensures
            r.wf(),
            !r.is_new,
            r.data.is_none(),
            r.project_id.is_none(),
            r.title.input@.len() == 0,
    {
        ListEditor {
            is_new: false,
            data: None,
            width: 60,
            height: 5,
            project_id: None,
            title: TextInput::new(LIST_TITLE_MAX_LENGTH),
        }
    }

    /// The editor for a new list.
    pub fn empty(self) -> (r: ListEditor)
        ensures
            r.is_new,
            r.data == self.data,
            r.project_id == self.project_id,
            r.title == self.title,
            r.width == self.width,
            r.height == self.height,
    {
        ListEditor { is_new: true, ..self }
    }

    pub fn project_id(&mut self, project_id: i32)
        ensures
            final(self).project_id == Some(project_id),
            final(self).is_new == old(self).is_new,
            final(self).data == old(self).data,
            final(self).title == old(self).title,
    {
        self.project_id = Some(project_id);
    }

    /// Loads a list for editing: its title fills the field.
    pub fn set(&mut self, list: ListData)
        requires
            old(self).wf(),
        ensures
            final(self).wf(),
            final(self).data == Some(list),
            final(self).is_new == old(self).is_new,
            final(self).project_id == old(self).project_id,
            final(self).title.input@ == if list.title@.len() <= LIST_TITLE_MAX_LENGTH {
                list.title@
            } else {
                list.title@.subrange(0, LIST_TITLE_MAX_LENGTH as int)
            },
    {
        let title = list.title.clone();
        self.data = Some(list);
        self.title.set_input(title);
    }

    pub fn reset(&mut self)
        requires
            old(self).wf(),
        ensures
            final(self).wf(),
            final(self).is_new == old(self).is_new,
            final(self).data.is_none(),
            final(self).project_id == old(self).project_id,
            final(self).title.input@.len() == 0,
    {
        self.data = None;
        self.title.reset();
    }

    /// Keys go to the title field; Enter saves (an insert for a new list, a
    /// rename otherwise), clears the field and closes the popup.
    pub fn key_event_handler(&mut self, app: &mut AppState, key: Key) -> (r: ListEditorResult)
        requires
            old(self).wf(),
            old(self).can_save(),
        ensures
            final(self).wf(),
            final(self).is_new == old(self).is_new,
            final(self).data == old(self).data,
            final(self).project_id == old(self).project_id,
            key != Key::Enter ==> r is Stay,
            key == Key::Enter ==> {
                &&& final(self).title.input@.len() == 0
                &&& final(app).stack() == crate::focus::closed(
                    (crate::text_input::typed_display(old(app).display, key), old(app).covered@),
                )
                &&& match r {
                    ListEditorResult::Save(StoreOp::InsertList { project_id, title }) => {
                        &&& old(self).is_new
                        &&& old(self).project_id == Some(project_id)
                        &&& title@ == old(self).title.input@
                    },
                    ListEditorResult::Save(StoreOp::UpdateList { list_id, title }) => {
                        &&& !old(self).is_new
                        &&& old(self).data.unwrap().id == list_id
                        &&& title@ == old(self).title.input@
                    },
                    ListEditorResult::Close => old(self).is_new && old(self).project_id.is_none(),
                    _ => false,
                }
            },
    {
        self.title.key_event_handler(app, key);
        if key == Key::Enter {
            let title = self.title.input_string();
            let r = if self.is_new {
                match self.project_id {
                    Some(project_id) => ListEditorResult::Save(StoreOp::InsertList { project_id, title }),
                    None => ListEditorResult::Close,
                }
            } else {
                let list_id = match &self.data {
                    Some(d) => d.id,
                    None => 0,
                };
                ListEditorResult::Save(StoreOp::UpdateList { list_id, title })
            };
            app.close_popup();
            self.title.reset();
            return r;
        }
        ListEditorResult::Stay
    }
}

} // verus!
