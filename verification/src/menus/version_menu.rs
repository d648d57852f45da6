//! A stand-alone version menu entry: a title and a help line.

use vstd::prelude::*;

verus! {

/// The version menu entry.
#[derive(Debug)]
pub struct VersionMenu {
    pub title: String,
    pub help: String,
}

impl VersionMenu {
    /// A fresh version menu entry with its fixed title and help line.
    pub fn new() -> (r: VersionMenu)
        ensures
            r.title@ == "Version"@,
            r.help@ == "帮助信息"@,
    {
        VersionMenu { title: "Version".to_owned(), help: "帮助信息".to_owned() }
    }

    /// The help line shown for this entry.
    pub fn get_info(&self) -> (r: String)
        ensures
            r@ == self.help@,
    {
        self.help.clone()
    }
}

} // verus!
