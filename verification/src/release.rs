//! Releases fetched from the remote index, and the deterministic selection
//! of the platform-specific asset among their downloadable artifacts.

use vstd::prelude::*;

use crate::errors::Error;
use crate::platform::PlatformTriple;
use crate::strutil::str_eq;

verus! {

/// One downloadable artifact of a release.
pub struct Asset {
    pub name: String,
    pub download_url: String,
}

/// The latest published release of a tool: a version identifier and its
/// downloadable assets, in the order the index returned them.
pub struct ReleaseInfo {
    pub version: String,
    pub assets: Vec<Asset>,
}

impl Asset {
    /// Copies an asset.
    pub fn duplicate(&self) -> (r: Asset)
        ensures
            r == *self,
    {
        Asset { name: self.name.clone(), download_url: self.download_url.clone() }
    }
}

/// The artifact name expected for a tool on a platform:
/// `{tool}-{os}-{arch}-{version}{extension}`.
pub open spec fn spec_asset_name(
    tool: Seq<char>,
    os: Seq<char>,
    arch: Seq<char>,
    version: Seq<char>,
    extension: Seq<char>,
) -> Seq<char> {
    tool + "-"@ + os + "-"@ + arch + "-"@ + version + extension
}

/// Builds the expected artifact name for `tool` at `version` on `platform`.
/// The result is a pure function of its arguments: the same tool, platform
/// and version always yield the same name.
pub fn expected_asset_name(tool: &str, platform: &PlatformTriple, version: &str) -> (r: String)
    ensures
        r@ == spec_asset_name(tool@, platform.os@, platform.arch@, version@, platform.extension@),
{
    let mut s = String::from_str(tool);
    s.append("-");
    s.append(platform.os.as_str());
    s.append("-");
    s.append(platform.arch.as_str());
    s.append("-");
    s.append(version);
    s.append(platform.extension.as_str());
    s
}

/// Whether some asset of the sequence carries exactly the given name.
pub open spec fn has_asset_named(assets: Seq<Asset>, name: Seq<char>) -> bool {
    exists|i: int| 0 <= i < assets.len() && assets[i].name@ == name
}

/// Selects the first asset of `release` whose name equals `expected`, by
/// exact string equality; fails with `AssetNotFound` carrying the expected
/// name when no asset matches.
pub fn select_asset(release: &ReleaseInfo, expected: &String) -> (r: Result<Asset, Error>)
    ensures
        r is Ok <==> has_asset_named(release.assets@, expected@),
        r matches Ok(a) ==> exists|i: int|
            0 <= i < release.assets@.len() && a == release.assets@[i] && a.name@ == expected@
                && (forall|j: int| 0 <= j < i ==> release.assets@[j].name@ != expected@),
        r matches Err(e) ==> (e matches Error::AssetNotFound { expected: x } && x@ == expected@),
{
    let mut i: usize = 0;
    let n = release.assets.len();
    while i < n
        invariant
            n == release.assets@.len(),
            i <= n,
            forall|j: int| 0 <= j < i ==> release.assets@[j].name@ != expected@,
        decreases n - i,
    {
        let a = &release.assets[i];
        if str_eq(a.name.as_str(), expected.as_str()) {
            return Ok(a.duplicate());
        }
        i = i + 1;
    }
    Err(Error::AssetNotFound { expected: expected.clone() })
}

/// Selecting an asset is deterministic: equal tool names, platform fields
/// and versions give equal expected artifact names.
pub proof fn lemma_asset_name_deterministic(
    tool1: Seq<char>,
    os1: Seq<char>,
    arch1: Seq<char>,
    version1: Seq<char>,
    extension1: Seq<char>,
    tool2: Seq<char>,
    os2: Seq<char>,
    arch2: Seq<char>,
    version2: Seq<char>,
    extension2: Seq<char>,
)
    requires
        tool1 == tool2,
        os1 == os2,
        arch1 == arch2,
        version1 == version2,
        extension1 == extension2,
    ensures
        spec_asset_name(tool1, os1, arch1, version1, extension1) == spec_asset_name(
            tool2,
            os2,
            arch2,
            version2,
            extension2,
        ),
{
}

} // verus!
