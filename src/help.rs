//! The help popup.
use crate::focus::{AppPopup, AppState};
use crate::key::Key;
use vstd::prelude::*;

verus! {

pub struct Help {
    /// The popup's height, in percent of the screen.
    pub height_percent: u16,
}

impl Help {
    pub fn init() -> (r: Help)
        ensures
            r.height_percent == 90,
    {
        Help { height_percent: 90 }
    }

    /// `?` closes the popup.
    pub fn key_event_handler(&mut self, app: &mut AppState, key: Key)
        ensures
            key == Key::Char('?') ==> final(app).display == crate::focus::base_display() && final(app).popup
                == AppPopup::NoPopup,
            key != Key::Char('?') ==> *final(app) == *old(app),
    {
        if key == Key::Char('?') {
            app.reset_display();
            app.popup = AppPopup::NoPopup;
        }
    }
}

} // verus!
