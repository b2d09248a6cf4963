//! The profile resolver: known emulation-profile and operating-system
//! labels resolve to themselves, anything else falls back to the
//! canonical defaults. No error is surfaced for unknown names.

use vstd::prelude::*;
use crate::chars::strs_eq;

verus! {

/// The catalogue of available emulation profiles and operating systems,
/// supplied by the embedding build. Labels are opaque to this crate.
pub struct ProfileCatalogue {
    profiles: Vec<String>,
    operating_systems: Vec<String>,
}

/// Whether a label occurs in a list of labels.
pub open spec fn label_known(labels: Seq<String>, label: Seq<char>) -> bool {
    exists|i: int| 0 <= i < labels.len() && (#[trigger] labels[i])@ == label
}

/// Find a label in a list.
fn find_label(labels: &Vec<String>, label: &str) -> (r: bool)
    ensures
        r == label_known(labels@, label@),
{
    let mut i: usize = 0;
    while i < labels.len()
        invariant
            i <= labels@.len(),
            forall|j: int| 0 <= j < i ==> (#[trigger] labels@[j])@ != label@,
        decreases labels@.len() - i,
    {
        if strs_eq(labels[i].as_str(), label) {
            return true;
        }
        i = i + 1;
    }
    false
}

impl ProfileCatalogue {
    pub closed spec fn spec_profiles(&self) -> Seq<String> {
        self.profiles@
    }

    pub closed spec fn spec_operating_systems(&self) -> Seq<String> {
        self.operating_systems@
    }

    /// Assemble the catalogue from the generated label lists.
    pub fn new(profiles: Vec<String>, operating_systems: Vec<String>) -> (r: ProfileCatalogue)
        ensures
            r.spec_profiles() == profiles@,
            r.spec_operating_systems() == operating_systems@,
    {
        ProfileCatalogue { profiles, operating_systems }
    }

    /// The available profile labels, in catalogue order.
    pub fn get_profiles(&self) -> (r: &Vec<String>)
        ensures
            r@ == self.spec_profiles(),
    {
        &self.profiles
    }

    /// The available operating-system labels, in catalogue order.
    pub fn get_operating_systems(&self) -> (r: &Vec<String>)
        ensures
            r@ == self.spec_operating_systems(),
    {
        &self.operating_systems
    }

    /// Resolve a profile label: a known label stands, an unknown one falls
    /// back to the default profile.
    pub fn parse_emulation(&self, browser: &str) -> (r: String)
        ensures
            label_known(self.spec_profiles(), browser@) ==> r@ == browser@,
            !label_known(self.spec_profiles(), browser@) ==> r@ == "chrome_142"@,
    {
        if find_label(&self.profiles, browser) {
            browser.to_owned()
        } else {
            String::from_str("chrome_142")
        }
    }

    /// Resolve an operating-system label: a known label stands, an unknown
    /// one falls back to the default.
    pub fn parse_emulation_os(&self, os: &str) -> (r: String)
        ensures
            label_known(self.spec_operating_systems(), os@) ==> r@ == os@,
            !label_known(self.spec_operating_systems(), os@) ==> r@ == "macos"@,
    {
        if find_label(&self.operating_systems, os) {
            os.to_owned()
        } else {
            String::from_str("macos")
        }
    }
}

} // verus!
