//! Privacy-sensitive locations.
//!
//! The catalog of well-known privacy paths is platform data owned by the
//! shell; the shell probes each path and builds the entries through the
//! constructor here. Cleaning an entry reuses the reclaim module's
//! dispatch and tallies.

use vstd::prelude::*;

verus! {

/// One named privacy-sensitive location, with a point-in-time snapshot of
/// whether its path existed when the catalog was enumerated.
#[derive(Debug, Clone)]
pub struct PrivacyItem {
    pub name: String,
    pub path: String,
    pub exists: bool,
}

/// Mathematical image of a [`PrivacyItem`].
pub ghost struct PrivacyItemV {
    pub name: Seq<char>,
    pub path: Seq<char>,
    pub exists: bool,
}

impl View for PrivacyItem {
    type V = PrivacyItemV;

    open spec fn view(&self) -> PrivacyItemV {
        PrivacyItemV { name: self.name@, path: self.path@, exists: self.exists }
    }
}

impl PrivacyItem {
    /// Build an entry for a probed catalog path.
    pub fn new(name: String, path: String, exists: bool) -> (item: PrivacyItem)
        ensures
            item@.name == name@,
            item@.path == path@,
            item@.exists == exists,
    {
        PrivacyItem { name, path, exists }
    }
}

} // verus!
