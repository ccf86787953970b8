//! The global display state: which view is shown and which interaction mode
//! the keyboard is in, with popups that remember what they covered.
use vstd::prelude::*;

verus! {

/// What the screen shows on top of the active module.
#[derive(Clone, Copy, Debug, PartialEq, Eq, Structural)]
pub enum Screen {
    Default,
    Popup,
    Command,
}

/// How key events are interpreted.
#[derive(Clone, Copy, Debug, PartialEq, Eq, Structural)]
pub enum Mode {
    Navigation,
    Insert,
    Delete,
    Popup,
    Command,
}

/// A view together with its mode; the two always change together.
#[derive(Clone, Copy, Debug, PartialEq, Eq, Structural)]
pub struct Display {
    pub view: Screen,
    pub mode: Mode,
}

/// The module shown in the main area.
#[derive(Clone, Copy, Debug, PartialEq, Eq, Structural)]
pub enum AppModule {
    Dashboard,
    ProjectManagement,
}

/// A popup owned by the application rather than by a screen.
#[derive(Clone, Copy, Debug, PartialEq, Eq, Structural)]
pub enum AppPopup {
    NoPopup,
    Help,
}

/// The kind of popup being opened: an editor takes typing at once, a viewer
/// only navigation.
#[derive(Clone, Copy, Debug, PartialEq, Eq, Structural)]
pub enum PopupKind {
    Editor,
    Viewer,
}

pub open spec fn base_display() -> Display {
    Display { view: Screen::Default, mode: Mode::Navigation }
}

pub open spec fn popup_display_of(kind: PopupKind) -> Display {
    Display {
        view: Screen::Popup,
        mode: match kind {
            PopupKind::Editor => Mode::Insert,
            PopupKind::Viewer => Mode::Popup,
        },
    }
}

/// The display and the stack of covered displays, as one value.
pub type DisplayStack = (Display, Seq<Display>);

/// Opening a popup: the current display is covered and the popup shown.
pub open spec fn opened(s: DisplayStack, kind: PopupKind) -> DisplayStack {
    (popup_display_of(kind), s.1.push(s.0))
}

/// Closing the innermost popup: the covered display comes back.
pub open spec fn closed(s: DisplayStack) -> DisplayStack {
    if s.1.len() > 0 {
        (s.1.last(), s.1.drop_last())
    } else {
        (base_display(), Seq::empty())
    }
}

/// The application context handed to every key handler.
pub struct AppState {
    pub display: Display,
    /// The displays covered by the open popups, innermost last.
    pub covered: Vec<Display>,
    pub module: AppModule,
    pub popup: AppPopup,
    pub running: bool,
}

impl AppState {
    pub open spec fn stack(&self) -> DisplayStack {
        (self.display, self.covered@)
    }

    pub fn init() -> (r: AppState)
        ensures
            r.display == base_display(),
            r.covered@.len() == 0,
            r.module == AppModule::Dashboard,
            r.popup == AppPopup::NoPopup,
            r.running,
    {
        AppState {
            display: Display { view: Screen::Default, mode: Mode::Navigation },
            covered: Vec::new(),
            module: AppModule::Dashboard,
            popup: AppPopup::NoPopup,
            running: true,
        }
    }

    pub fn is_popup(&self) -> (r: bool)
        ensures
            r == (self.display.view == Screen::Popup),
    {
        self.display.view == Screen::Popup
    }

    pub fn is_default(&self) -> (r: bool)
        ensures
            r == (self.display.view == Screen::Default),
    {
        self.display.view == Screen::Default
    }

    pub fn is_normal_mode(&self) -> (r: bool)
        ensures
            r == (self.display.mode == Mode::Navigation),
    {
        self.display.mode == Mode::Navigation
    }

    pub fn is_insert_mode(&self) -> (r: bool)
        ensures
            r == (self.display.mode == Mode::Insert),
    {
        self.display.mode == Mode::Insert
    }

    pub fn is_delete_mode(&self) -> (r: bool)
        ensures
            r == (self.display.mode == Mode::Delete),
    {
        self.display.mode == Mode::Delete
    }

    /// Switches the mode inside the current view.
    pub fn set_mode(&mut self, mode: Mode)
        ensures
            final(self).display == (Display { view: old(self).display.view, mode }),
            final(self).covered@ == old(self).covered@,
            final(self).module == old(self).module,
            final(self).popup == old(self).popup,
            final(self).running == old(self).running,
    {
        self.display = Display { view: self.display.view, mode };
    }

    /// Opens a popup over the current display in one step.
    pub fn open_popup(&mut self, kind: PopupKind)
        ensures
            final(self).stack() == opened(old(self).stack(), kind),
            final(self).module == old(self).module,
            final(self).popup == old(self).popup,
            final(self).running == old(self).running,
    {
        self.covered.push(self.display);
        let mode = match kind {
            PopupKind::Editor => Mode::Insert,
            PopupKind::Viewer => Mode::Popup,
        };
        self.display = Display { view: Screen::Popup, mode };
    }

    /// Closes the innermost popup, bringing back the display it covered, or
    /// the base display when no popup was recorded.
    pub fn close_popup(&mut self)
        ensures
            final(self).stack() == closed(old(self).stack()),
            final(self).module == old(self).module,
            final(self).popup == old(self).popup,
            final(self).running == old(self).running,
    {
        match self.covered.pop() {
            Some(d) => {
                self.display = d;
            },
            None => {
                self.display = Display { view: Screen::Default, mode: Mode::Navigation };
            },
        }
    }

    /// Drops every popup and returns to browsing.
    pub fn reset_display(&mut self)
        ensures
            final(self).display == base_display(),
            final(self).covered@.len() == 0,
            final(self).module == old(self).module,
            final(self).popup == old(self).popup,
            final(self).running == old(self).running,
    {
        self.covered = Vec::new();
        self.display = Display { view: Screen::Default, mode: Mode::Navigation };
    }

    /// Shows an application popup over a reset base, in read-only mode.
    pub fn popup_display(&mut self)
        ensures
            final(self).display == popup_display_of(PopupKind::Viewer),
            final(self).covered@ == seq![base_display()],
            final(self).module == old(self).module,
            final(self).popup == old(self).popup,
            final(self).running == old(self).running,
    {
        self.reset_display();
        self.open_popup(PopupKind::Viewer);
    }

    /// Shows the command palette in its browsing mode.
    pub fn command_display(&mut self)
        ensures
            final(self).display == (Display { view: Screen::Command, mode: Mode::Command }),
            final(self).covered@ == old(self).covered@,
            final(self).module == old(self).module,
            final(self).popup == old(self).popup,
            final(self).running == old(self).running,
    {
        self.display = Display { view: Screen::Command, mode: Mode::Command };
    }

    /// Asks the event loop to stop.
    pub fn exit(&mut self)
        ensures
            !final(self).running,
            final(self).display == old(self).display,
            final(self).covered@ == old(self).covered@,
            final(self).module == old(self).module,
            final(self).popup == old(self).popup,
    {
        self.running = false;
    }
}

/// Opening any popup shows it in one step, in insert mode for an editor and
/// in popup mode for a viewer; closing it then gives back exactly the display
/// and the popup stack that were there before.
pub proof fn lemma_popup_round_trip(s: DisplayStack, kind: PopupKind)
    ensures
        opened(s, kind).0.view == Screen::Popup,
        opened(s, kind).0.mode == Mode::Insert || opened(s, kind).0.mode == Mode::Popup,
        closed(opened(s, kind)) == s,
{
    assert(s.1.push(s.0).drop_last() =~= s.1);
}

} // verus!
