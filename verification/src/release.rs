//! Releases of a remote repository and their downloadable assets, as plain
//! values.

use vstd::prelude::*;

verus! {

/// A downloadable file attached to a release.
#[derive(Debug)]
pub struct Asset {
    /// The provider's identifier of the asset.
    pub id: u64,
    /// File name of the asset.
    pub name: String,
}

impl Clone for Asset {
    fn clone(&self) -> (copy: Self)
        ensures
            copy == *self,
    {
        Asset { id: self.id, name: self.name.clone() }
    }
}

/// A tagged, published set of assets.
#[derive(Debug)]
pub struct Release {
    /// The tag that the release was made from.
    pub tag_name: String,
    /// Display title of the release, if it has one.
    pub name: Option<String>,
    /// Drafts are not visible to the public yet.
    pub draft: bool,
    /// The commit that the release points to.
    pub target_commitish: String,
    /// Assets, in the provider's order.
    pub assets: Vec<Asset>,
}

/// Copies a list of assets.
pub fn clone_assets(assets: &Vec<Asset>) -> (copy: Vec<Asset>)
    ensures
        copy@ == assets@,
{
    let mut copy: Vec<Asset> = Vec::new();
    let mut i: usize = 0;
    while i < assets.len()
        invariant
            i <= assets.len(),
            copy@ == assets@.subrange(0, i as int),
        decreases assets.len() - i,
    {
        copy.push(assets[i].clone());
        assert(copy@ =~= assets@.subrange(0, i + 1));
        i += 1;
    }
    assert(copy@ =~= assets@);
    copy
}

impl Clone for Release {
    fn clone(&self) -> (copy: Self)
        ensures
            copy.tag_name == self.tag_name,
            copy.name == self.name,
            copy.draft == self.draft,
            copy.target_commitish == self.target_commitish,
            copy.assets@ == self.assets@,
    {
        let name = match &self.name {
            Some(name) => Some(name.clone()),
            None => None,
        };
        Release {
            tag_name: self.tag_name.clone(),
            name,
            draft: self.draft,
            target_commitish: self.target_commitish.clone(),
            assets: clone_assets(&self.assets),
        }
    }
}

} // verus!
