//! Release metadata from the registry, the requests that fetch it, and the
//! choice of the asset built for a platform.
use vstd::prelude::*;
use crate::error::UpdateError;
use crate::text::{joined, same_text, strip_leading_v, view_opt, without_leading_v};

verus! {

/// One downloadable build attached to a release.
pub struct Asset {
    pub name: String,
    pub download_url: String,
}

/// A release: its tag and its assets, in the registry's order.
pub struct Release {
    pub tag: String,
    pub assets: Vec<Asset>,
}

impl Clone for Asset {
    fn clone(&self) -> (r: Asset)
        ensures
            r == *self,
    {
        Asset { name: self.name.clone(), download_url: self.download_url.clone() }
    }
}

/// The tag that a requested version names: the version itself when it
/// already starts with `'v'`, else the version behind a `'v'`.
pub open spec fn tag_for(version: Seq<char>) -> Seq<char> {
    if version.len() > 0 && version[0] == 'v' {
        version
    } else {
        "v"@ + version
    }
}

/// Where the registry's metadata for a repository's release is read: the
/// latest release, or the one with the tag for a requested version.
pub open spec fn release_url_of(repo: Seq<char>, requested: Option<Seq<char>>) -> Seq<char> {
    match requested {
        Some(v) => "https://api.github.com/repos/"@ + repo + "/releases/tags/"@ + tag_for(v),
        None => "https://api.github.com/repos/"@ + repo + "/releases/latest"@,
    }
}

/// Whether an HTTP status is a success (2xx).
pub open spec fn is_success(status: u16) -> bool {
    200 <= status <= 299
}

/// The name that the asset for a binary and a platform triple carries.
pub open spec fn asset_name_of(binary: Seq<char>, triple: Seq<char>) -> Seq<char> {
    binary + "-"@ + triple
}

/// The names of a sequence of assets, in order.
pub open spec fn names_of(assets: Seq<Asset>) -> Seq<Seq<char>> {
    assets.map_values(|a: Asset| a.name@)
}

/// Whether some asset carries `name`.
pub open spec fn has_named(assets: Seq<Asset>, name: Seq<char>) -> bool {
    exists|i: int| 0 <= i < assets.len() && #[trigger] assets[i].name@ == name
}

/// Whether the asset at `i` is the first one that carries `name`.
pub open spec fn first_named(assets: Seq<Asset>, name: Seq<char>, i: int) -> bool {
    &&& 0 <= i < assets.len()
    &&& assets[i].name@ == name
    &&& forall|j: int| 0 <= j < i ==> #[trigger] assets[j].name@ != name
}

/// The tag for a requested version.
pub fn normalize_tag(version: &str) -> (r: String)
    ensures
        r@ == tag_for(version@),
{
    if version.unicode_len() > 0 && version.get_char(0) == 'v' {
        String::from_str(version)
    } else {
        joined("v", version)
    }
}

/// The registry address of the latest release of `repo`, or of the release
/// for a requested version.
pub fn release_url(repo: &str, requested: Option<&str>) -> (r: String)
    ensures
        r@ == release_url_of(repo@, view_opt(requested)),
{
    let base = joined("https://api.github.com/repos/", repo);
    match requested {
        Some(v) => {
            let tag = normalize_tag(v);
            let with_path = joined(base.as_str(), "/releases/tags/");
            joined(with_path.as_str(), tag.as_str())
        },
        None => joined(base.as_str(), "/releases/latest"),
    }
}

/// What a status answered to a metadata request means: a success, a missing
/// release (404), or any other failure.
pub fn check_release_status(status: u16) -> (r: Result<(), UpdateError>)
    ensures
        is_success(status) <==> r is Ok,
        r matches Err(e) ==> (if status == 404 {
            e is NotFound
        } else {
            e == (UpdateError::Network { status })
        }),
{
    if 200 <= status && status <= 299 {
        Ok(())
    } else if status == 404 {
        Err(UpdateError::NotFound)
    } else {
        Err(UpdateError::Network { status })
    }
}

/// What a status answered to a download request means: a success, or a
/// failure that carries the status.
pub fn check_download_status(status: u16) -> (r: Result<(), UpdateError>)
    ensures
        is_success(status) <==> r is Ok,
        r matches Err(e) ==> e == (UpdateError::Network { status }),
{
    if 200 <= status && status <= 299 {
        Ok(())
    } else {
        Err(UpdateError::Network { status })
    }
}

impl Release {
    /// The version that the release's tag names: the tag without its
    /// leading `'v'` characters.
    pub fn version(&self) -> (r: String)
        ensures
            r@ == without_leading_v(self.tag@),
    {
        strip_leading_v(self.tag.as_str())
    }
}

/// The name of the asset that holds `binary` built for `triple`.
pub fn asset_name(binary: &str, triple: &str) -> (r: String)
    ensures
        r@ == asset_name_of(binary@, triple@),
{
    let head = joined(binary, "-");
    joined(head.as_str(), triple)
}

/// The names of the assets, in order.
pub fn asset_names(assets: &Vec<Asset>) -> (r: Vec<String>)
    ensures
        r@.map_values(|s: String| s@) == names_of(assets@),
{
    let mut r: Vec<String> = Vec::new();
    let mut i: usize = 0;
    while i < assets.len()
        invariant
            i <= assets@.len(),
            r@.len() == i,
            forall|k: int| 0 <= k < i ==> #[trigger] r@[k]@ == assets@[k].name@,
        decreases assets@.len() - i,
    {
        r.push(assets[i].name.clone());
        i = i + 1;
    }
    assert(r@.map_values(|s: String| s@) =~= names_of(assets@));
    r
}

/// The first asset named exactly `"<binary>-<triple>"`; when there is none,
/// an error that carries that name and the names of all assets.
pub fn select_asset(assets: &Vec<Asset>, binary: &str, triple: &str) -> (r: Result<
    Asset,
    UpdateError,
>)
    ensures
        r is Ok <==> has_named(assets@, asset_name_of(binary@, triple@)),
        r matches Ok(a) ==> exists|i: int|
            first_named(assets@, asset_name_of(binary@, triple@), i) && a == assets@[i],
        r matches Err(e) ==> (e matches UpdateError::AssetNotFound { expected, available }
            && expected@ == asset_name_of(binary@, triple@)
            && available@.map_values(|s: String| s@) == names_of(assets@)),
{
    let expected = asset_name(binary, triple);
    let mut i: usize = 0;
    while i < assets.len()
        invariant
            i <= assets@.len(),
            expected@ == asset_name_of(binary@, triple@),
            forall|j: int| 0 <= j < i ==> #[trigger] assets@[j].name@ != expected@,
        decreases assets@.len() - i,
    {
        if same_text(assets[i].name.as_str(), expected.as_str()) {
            assert(first_named(assets@, expected@, i as int));
            return Ok(assets[i].clone());
        }
        i = i + 1;
    }
    Err(UpdateError::AssetNotFound { expected, available: asset_names(assets) })
}

} // verus!
