//! Icon characters of the file list.

use vstd::prelude::*;

verus! {
/// The characters drawn before an entry of the file list.
#[derive(Clone, Copy)]
pub struct ThemeChars {
    pub folder: char,
    pub file: char,
    pub folder_open: char,
    pub parent: char,
}

impl Default for ThemeChars {
    fn default() -> (c: Self)
        ensures
            c == (ThemeChars { folder: ' ', file: ' ', folder_open: ' ', parent: ' ' }),
    {
        ThemeChars { folder: ' ', file: ' ', folder_open: ' ', parent: ' ' }
    }
}

} // verus!
