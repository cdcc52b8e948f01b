//! An on-screen sound button: its ordinal and the catalog entry it plays.
use vstd::prelude::*;

verus! {

pub struct SoundButton {
    pub id: usize,
    pub label: String,
    pub file: String,
}

impl SoundButton {
    pub fn new(id: usize, label: &str, file: &str) -> (r: SoundButton)
        ensures
            r.id == id,
            r.label@ == label@,
            r.file@ == file@,
    {
        SoundButton { id, label: label.to_string(), file: file.to_string() }
    }
}

} // verus!
