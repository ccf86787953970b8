//! The settings screen.
use vstd::prelude::*;

verus! {

pub struct Settings;

impl Settings {
    pub fn init() -> Settings {
        Settings
    }

    /// The line that shows the version.
    pub fn version_line(&self, version: &str) -> (r: String)
        ensures
            r@ == "Version: "@ + version@,
    {
        "Version: ".to_owned().concat(version)
    }
}

} // verus!
