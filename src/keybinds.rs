//! The global key bindings: help, quit, moving between screens and between
//! the navigation bar and the screen.
use crate::focus::{AppPopup, AppState, Mode};
use crate::key::Key;
use vstd::prelude::*;

verus! {

/// The part of the window that takes keys.
#[derive(Clone, Copy, Debug, PartialEq, Eq, Structural)]
pub enum Window {
    Navigation,
    Screen,
}

/// Which screen of the list is shown and which part of the window is active.
pub struct Navigator {
    pub screen: usize,
    pub screen_count: usize,
    pub window: Window,
}

impl Navigator {
    pub open spec fn wf(&self) -> bool {
        self.screen < self.screen_count
    }
}

/// While browsing: `?` shows the help, `q` quits, `j` and `k` go to the
/// next and previous screen round the list, `h` and `l` move between the
/// navigation bar and the screen. In a popup, `q` or Esc closes it.
pub fn handle_key_event(app: &mut AppState, nav: &mut Navigator, key: Key)
    requires
        old(nav).wf(),
    ensures
        final(nav).wf(),
        final(nav).screen_count == old(nav).screen_count,
        !(old(app).display.mode == Mode::Navigation && (key == Key::Char('j') || key == Key::Char('k')))
            ==> final(nav).screen == old(nav).screen,
        !(old(app).display.mode == Mode::Navigation && (key == Key::Char('h') || key == Key::Char('l')))
            ==> final(nav).window == old(nav).window,
        old(app).display.mode != Mode::Navigation && old(app).display.mode != Mode::Popup ==> *final(app)
            == *old(app),
        old(app).display.mode == Mode::Navigation ==> {
            &&& key == Key::Char('?') ==> final(app).popup == AppPopup::Help && final(app).display
                == crate::focus::popup_display_of(crate::focus::PopupKind::Viewer)
            &&& (key == Key::Char('q') || key == Key::Char('Q')) ==> !final(app).running
            &&& key == Key::Char('j') ==> final(nav).screen == (old(nav).screen + 1) % (old(nav).screen_count as int)
            &&& key == Key::Char('k') ==> final(nav).screen == (old(nav).screen + old(nav).screen_count - 1)
                % (old(nav).screen_count as int)
            &&& key == Key::Char('h') ==> final(nav).window == Window::Navigation
            &&& key == Key::Char('l') ==> final(nav).window == Window::Screen
        },
        old(app).display.mode == Mode::Popup && (key == Key::Char('q') || key == Key::Char('Q') || key
            == Key::Esc) ==> final(app).display == crate::focus::base_display() && final(app).popup
            == AppPopup::NoPopup,
{
    let mode = app.display.mode;
    let n = nav.screen_count;
    proof {
        vstd::arithmetic::div_mod::lemma_mod_self_0(n as int);
        if nav.screen + 1 < n {
            vstd::arithmetic::div_mod::lemma_small_mod((nav.screen + 1) as nat, n as nat);
        }
        if nav.screen > 0 {
            vstd::arithmetic::div_mod::lemma_mod_add_multiples_vanish(nav.screen - 1, n as int);
            vstd::arithmetic::div_mod::lemma_small_mod((nav.screen - 1) as nat, n as nat);
            assert(nav.screen + n - 1 == n + (nav.screen - 1));
        } else {
            vstd::arithmetic::div_mod::lemma_small_mod((n - 1) as nat, n as nat);
        }
    }
    if mode == Mode::Navigation {
        match key {
            Key::Char('?') => {
                app.popup_display();
                app.popup = AppPopup::Help;
            },
            Key::Char('q') | Key::Char('Q') => app.exit(),
            Key::Char('j') => {
                nav.screen = if nav.screen == n - 1 {
                    0
                } else {
                    nav.screen + 1
                };
            },
            Key::Char('k') => {
                nav.screen = if nav.screen == 0 {
                    n - 1
                } else {
                    nav.screen - 1
                };
            },
            Key::Char('h') => nav.window = Window::Navigation,
            Key::Char('l') => nav.window = Window::Screen,
            _ => {},
        }
    }
    if mode == Mode::Popup {
        match key {
            Key::Char('q') | Key::Char('Q') | Key::Esc => {
                app.reset_display();
                app.popup = AppPopup::NoPopup;
            },
            _ => {},
        }
    }
}

} // verus!
