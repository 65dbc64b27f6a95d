//! The admin's screen for editing one flag.
use vstd::prelude::*;
use crate::database::Flag;

verus! {

/// The editing screen of one flag, with the focus on its first field.
pub struct EditScreen {
    pub flag: Flag,
    pub focus: usize,
}

impl EditScreen {
    /// Starts editing `flag`, with the focus on its first field.
    pub fn new(flag: Flag) -> (res: EditScreen)
        ensures
            res.flag == flag,
            res.focus == 0,
    {
        EditScreen { flag, focus: 0 }
    }
}

} // verus!
