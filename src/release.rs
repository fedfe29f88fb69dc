//! Release descriptors as reported by the release source, and asset lookup.

use vstd::prelude::*;

verus! {

/// One downloadable file attached to a release.
#[derive(Clone, Debug, PartialEq, Eq)]
pub struct Asset {
    pub name: String,
    pub download_url: String,
}

/// The latest published release: its version and its assets, in order.
#[derive(Clone, Debug, PartialEq, Eq)]
pub struct Release {
    pub version: String,
    pub assets: Vec<Asset>,
}

/// `i` is the first position whose asset is named exactly `name`.
pub open spec fn is_first_match(assets: Seq<Asset>, name: Seq<char>, i: int) -> bool {
    &&& 0 <= i < assets.len()
    &&& assets[i].name@ == name
    &&& forall|j: int| 0 <= j < i ==> assets[j].name@ != name
}

/// The position of the first asset named `name`, if any.
pub open spec fn spec_find_asset(assets: Seq<Asset>, name: Seq<char>) -> Option<int> {
    if exists|i: int| is_first_match(assets, name, i) {
        Some(choose|i: int| is_first_match(assets, name, i))
    } else {
        None
    }
}

/// At most one position is the first match.
pub proof fn lemma_first_match_unique(assets: Seq<Asset>, name: Seq<char>, i: int, k: int)
    requires
        is_first_match(assets, name, i),
        is_first_match(assets, name, k),
    ensures
        i == k,
{
    if i < k {
        assert(assets[i].name@ != name);
    } else if k < i {
        assert(assets[k].name@ != name);
    }
}

/// Finds the first asset whose name equals `name` exactly (case-sensitive).
pub fn find_asset(assets: &Vec<Asset>, name: &String) -> (r: Option<usize>)
    ensures
        match r {
            Some(i) => spec_find_asset(assets@, name@) == Some(i as int),
            None => spec_find_asset(assets@, name@) is None,
        },
        r is Some ==> is_first_match(assets@, name@, r->0 as int),
        r is None ==> forall|j: int| 0 <= j < assets@.len() ==> assets@[j].name@ != name@,
{
    let mut i: usize = 0;
    while i < assets.len()
        invariant
            i <= assets@.len(),
            forall|j: int| 0 <= j < i ==> assets@[j].name@ != name@,
        decreases assets@.len() - i,
    {
        if assets[i].name == *name {
            proof {
                assert(is_first_match(assets@, name@, i as int));
                let k = choose|k: int| is_first_match(assets@, name@, k);
                lemma_first_match_unique(assets@, name@, i as int, k);
            }
            return Some(i);
        }
        i += 1;
    }
    None
}

} // verus!
