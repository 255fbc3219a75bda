use vstd::prelude::*;
use crate::error::GripError;

verus! {

/// One downloadable file of a release.
#[derive(Debug)]
pub struct AssetRecord {
    pub name: String,
    pub download_url: String,
}

/// One published release, with its assets in the order the host lists them.
#[derive(Debug)]
pub struct ReleaseRecord {
    pub tag: String,
    pub assets: Vec<AssetRecord>,
}

/// The entry preselected when the user is asked to choose: the first,
/// which is the most recent release.
pub const DEFAULT_CHOICE: usize = 0;

/// `i` is the first release tagged `tag`.
pub open spec fn first_tagged(rs: Seq<ReleaseRecord>, tag: Seq<char>, i: int) -> bool {
    &&& 0 <= i < rs.len()
    &&& rs[i].tag@ == tag
    &&& forall|k: int| 0 <= k < i ==> rs[k].tag@ != tag
}

/// Some release is tagged `tag`.
pub open spec fn has_tag(rs: Seq<ReleaseRecord>, tag: Seq<char>) -> bool {
    exists|i: int| 0 <= i < rs.len() && rs[i].tag@ == tag
}

/// `i` is the first asset named `name`.
pub open spec fn first_named(assets: Seq<AssetRecord>, name: Seq<char>, i: int) -> bool {
    &&& 0 <= i < assets.len()
    &&& assets[i].name@ == name
    &&& forall|k: int| 0 <= k < i ==> assets[k].name@ != name
}

/// Some asset is named `name`.
pub open spec fn has_asset(assets: Seq<AssetRecord>, name: Seq<char>) -> bool {
    exists|i: int| 0 <= i < assets.len() && assets[i].name@ == name
}

/// The index of the release whose tag is exactly `version`.
pub fn find_release(releases: &Vec<ReleaseRecord>, version: &String) -> (r: Result<usize, GripError>)
    ensures
        releases@.len() == 0 ==> r == Err::<usize, GripError>(GripError::NoReleases),
        releases@.len() > 0 && !has_tag(releases@, version@) ==> r == Err::<usize, GripError>(
            GripError::VersionNotFound,
        ),
        releases@.len() > 0 && has_tag(releases@, version@) ==> r is Ok,
        r matches Ok(i) ==> first_tagged(releases@, version@, i as int),
{
    if releases.len() == 0 {
        return Err(GripError::NoReleases);
    }
    let mut i: usize = 0;
    while i < releases.len()
        invariant
            0 <= i <= releases@.len(),
            forall|k: int| 0 <= k < i ==> releases@[k].tag@ != version@,
        decreases releases@.len() - i,
    {
        if releases[i].tag == *version {
            return Ok(i);
        }
        i = i + 1;
    }
    Err(GripError::VersionNotFound)
}

/// The index of the asset of `release` named exactly `name`.
pub fn find_asset(release: &ReleaseRecord, name: &String) -> (r: Result<usize, GripError>)
    ensures
        !has_asset(release.assets@, name@) ==> r == Err::<usize, GripError>(GripError::AssetNotFound),
        has_asset(release.assets@, name@) ==> r is Ok,
        r matches Ok(i) ==> first_named(release.assets@, name@, i as int),
{
    let mut i: usize = 0;
    while i < release.assets.len()
        invariant
            0 <= i <= release.assets@.len(),
            forall|k: int| 0 <= k < i ==> release.assets@[k].name@ != name@,
        decreases release.assets@.len() - i,
    {
        if release.assets[i].name == *name {
            return Ok(i);
        }
        i = i + 1;
    }
    Err(GripError::AssetNotFound)
}

/// Chooses a release: the one tagged `version` when a version is given,
/// otherwise the one the user `picked` among all tags in the order listed.
pub fn select_release(
    releases: &Vec<ReleaseRecord>,
    version: &Option<String>,
    picked: usize,
) -> (r: Result<usize, GripError>)
    requires
        version is None && releases@.len() > 0 ==> picked < releases@.len(),
    ensures
        releases@.len() == 0 ==> r == Err::<usize, GripError>(GripError::NoReleases),
        releases@.len() > 0 ==> match version {
            Some(v) => (has_tag(releases@, v@) ==> (r matches Ok(i) && first_tagged(
                releases@,
                v@,
                i as int,
            ))) && (!has_tag(releases@, v@) ==> r == Err::<usize, GripError>(
                GripError::VersionNotFound,
            )),
            None => r == Ok::<usize, GripError>(picked),
        },
{
    match version {
        Some(v) => find_release(releases, v),
        None => {
            if releases.len() == 0 {
                Err(GripError::NoReleases)
            } else {
                Ok(picked)
            }
        },
    }
}

/// Chooses an asset of `release`: the one named `asset` when a name is
/// given, otherwise the one the user `picked` in the order listed.
pub fn select_asset(release: &ReleaseRecord, asset: &Option<String>, picked: usize) -> (r: Result<
    usize,
    GripError,
>)
    requires
        asset is None ==> picked < release.assets@.len(),
    ensures
        match asset {
            Some(a) => (has_asset(release.assets@, a@) ==> (r matches Ok(i) && first_named(
                release.assets@,
                a@,
                i as int,
            ))) && (!has_asset(release.assets@, a@) ==> r == Err::<usize, GripError>(
                GripError::AssetNotFound,
            )),
            None => r == Ok::<usize, GripError>(picked),
        },
{
    match asset {
        Some(a) => find_asset(release, a),
        None => Ok(picked),
    }
}

/// The tags of `releases`, in order: what the user chooses among.
pub fn release_tags(releases: &Vec<ReleaseRecord>) -> (r: Vec<String>)
    ensures
        r@.len() == releases@.len(),
        forall|i: int| 0 <= i < r@.len() ==> r@[i]@ == releases@[i].tag@,
{
    let mut r: Vec<String> = Vec::new();
    let mut i: usize = 0;
    while i < releases.len()
        invariant
            0 <= i <= releases@.len(),
            r@.len() == i,
            forall|k: int| 0 <= k < i ==> r@[k]@ == releases@[k].tag@,
        decreases releases@.len() - i,
    {
        r.push(releases[i].tag.clone());
        i = i + 1;
    }
    r
}

/// The names of the assets of `release`, in order: what the user chooses
/// among.
pub fn asset_names(release: &ReleaseRecord) -> (r: Vec<String>)
    ensures
        r@.len() == release.assets@.len(),
        forall|i: int| 0 <= i < r@.len() ==> r@[i]@ == release.assets@[i].name@,
{
    let mut r: Vec<String> = Vec::new();
    let mut i: usize = 0;
    while i < release.assets.len()
        invariant
            0 <= i <= release.assets@.len(),
            r@.len() == i,
            forall|k: int| 0 <= k < i ==> r@[k]@ == release.assets@[k].name@,
        decreases release.assets@.len() - i,
    {
        r.push(release.assets[i].name.clone());
        i = i + 1;
    }
    r
}

} // verus!
