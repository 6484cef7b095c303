//! What the host application asks of its window.
use vstd::prelude::*;

verus! {

/// The window the application opens: its title.
#[derive(Debug, Clone)]
pub struct WindowCreationInfo {
    pub title: String,
}

impl WindowCreationInfo {
    /// A window with the given title.
    pub fn new(title: &str) -> (r: Self)
        ensures
            r.title@ == title@,
    {
        WindowCreationInfo { title: title.to_owned() }
    }
}

} // verus!
