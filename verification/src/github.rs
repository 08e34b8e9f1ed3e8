//! The release description published for the client, and the lookup of its assets.

use vstd::prelude::*;
use crate::text::str_eq;

verus! {

/// A published release: its tag and its downloadable assets.
#[derive(Debug, Clone)]
pub struct ReleaseInfo {
    pub tag_name: String,
    pub assets: Vec<Asset>,
}

/// One downloadable file of a release.
#[derive(Debug, Clone)]
pub struct Asset {
    pub name: String,
    pub browser_download_url: String,
    pub size: u64,
}

/// Whether some asset in `assets` is named `name`.
pub open spec fn has_asset_named(assets: Seq<Asset>, name: Seq<char>) -> bool {
    exists|i: int| 0 <= i < assets.len() && #[trigger] assets[i].name@ == name
}

/// `i` is the position of the first asset in `assets` named `name`.
pub open spec fn is_first_named(assets: Seq<Asset>, name: Seq<char>, i: int) -> bool {
    &&& 0 <= i < assets.len()
    &&& assets[i].name@ == name
    &&& forall|j: int| 0 <= j < i ==> #[trigger] assets[j].name@ != name
}

impl ReleaseInfo {
    /// The position of the first asset named `name`, if there is one.
    pub fn find_asset_index(&self, name: &str) -> (r: Option<usize>)
        ensures
            match r {
                Some(i) => is_first_named(self.assets@, name@, i as int),
                None => !has_asset_named(self.assets@, name@),
            },
    {
        let mut i: usize = 0;
        while i < self.assets.len()
            invariant
                i <= self.assets@.len(),
                forall|j: int| 0 <= j < i ==> #[trigger] self.assets@[j].name@ != name@,
            decreases self.assets@.len() - i,
        {
            if str_eq(self.assets[i].name.as_str(), name) {
                return Some(i);
            }
            i = i + 1;
        }
        None
    }

    /// The first asset named `name`, if there is one.
    pub fn find_asset(&self, name: &str) -> (r: Option<&Asset>)
        ensures
            match r {
                Some(a) => exists|i: int|
                    is_first_named(self.assets@, name@, i) && #[trigger] self.assets@[i] == *a,
                None => !has_asset_named(self.assets@, name@),
            },
    {
        match self.find_asset_index(name) {
            Some(i) => Some(&self.assets[i]),
            None => None,
        }
    }
}

} // verus!
