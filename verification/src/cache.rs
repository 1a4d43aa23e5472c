//! The local binary cache: deterministic naming of per-version install
//! directories, and the pruning step that retires every version of a tool
//! other than the one just installed.

use vstd::prelude::*;

use crate::strutil::{starts_with, str_eq};

verus! {

/// The name of the directory that holds one installed version of a tool:
/// `{tool}-{version}`.
pub open spec fn spec_version_directory(tool: Seq<char>, version: Seq<char>) -> Seq<char> {
    tool + "-"@ + version
}

/// Builds the version-directory name for `tool` at `version`; pure string
/// construction, no side effects.
pub fn version_directory(tool: &str, version: &str) -> (r: String)
    ensures
        r@ == spec_version_directory(tool@, version@),
{
    let mut s = String::from_str(tool);
    s.append("-");
    s.append(version);
    s
}

/// Whether a directory entry is a version directory of `tool`, that is,
/// starts with `{tool}-`.
pub open spec fn is_version_dir_of(tool: Seq<char>, entry: Seq<char>) -> bool {
    (tool + "-"@).is_prefix_of(entry)
}

/// Given the entries of the install root, returns the entries to remove
/// after `keep` was installed for `tool`: every version directory of
/// `tool` other than `keep` itself. After removing them, `keep` is the
/// only version directory that remains for `tool`.
pub fn prune_outdated(entries: &Vec<String>, tool: &String, keep: &String) -> (removed: Vec<
    String,
>)
    ensures
        forall|j: int|
            0 <= j < removed@.len() ==> entries@.contains(removed@[j]) && is_version_dir_of(
                tool@,
                removed@[j]@,
            ) && removed@[j]@ != keep@,
        forall|i: int|
            0 <= i < entries@.len() && is_version_dir_of(tool@, entries@[i]@) && entries@[i]@
                != keep@ ==> removed@.contains(entries@[i]),
{
    let mut prefix = String::from_str(tool.as_str());
    prefix.append("-");
    let mut removed: Vec<String> = Vec::new();
    let n = entries.len();
    let mut i: usize = 0;
    while i < n
        invariant
            n == entries@.len(),
            i <= n,
            prefix@ == tool@ + "-"@,
            forall|j: int|
                0 <= j < removed@.len() ==> entries@.contains(removed@[j]) && is_version_dir_of(
                    tool@,
                    removed@[j]@,
                ) && removed@[j]@ != keep@,
            forall|k: int|
                0 <= k < i && is_version_dir_of(tool@, entries@[k]@) && entries@[k]@ != keep@
                    ==> removed@.contains(entries@[k]),
        decreases n - i,
    {
        let entry = &entries[i];
        if starts_with(entry.as_str(), prefix.as_str()) && !str_eq(
            entry.as_str(),
            keep.as_str(),
        ) {
            let ghost prev = removed@;
            removed.push(entry.clone());
            proof {
                assert(entries@.contains(entries@[i as int]));
                assert forall|k: int|
                    0 <= k <= i as int && is_version_dir_of(tool@, entries@[k]@) && entries@[k]@
                        != keep@ implies removed@.contains(entries@[k]) by {
                    if k < i as int {
                        let j = choose|j: int| 0 <= j < prev.len() && prev[j] == entries@[k];
                        assert(removed@[j] == entries@[k]);
                    } else {
                        assert(removed@[removed@.len() - 1] == entries@[k]);
                    }
                }
            }
        }
        i = i + 1;
    }
    removed
}

/// After pruning, exactly the installed directory remains: an entry that is
/// a version directory of `tool` escapes removal precisely when it is
/// `keep`. Stated of any result that meets `prune_outdated`'s contract.
pub proof fn lemma_prune_keeps_exactly_installed(
    entries: Seq<String>,
    tool: Seq<char>,
    keep: Seq<char>,
    removed: Seq<String>,
)
    requires
        forall|j: int|
            0 <= j < removed.len() ==> entries.contains(removed[j]) && is_version_dir_of(
                tool,
                removed[j]@,
            ) && removed[j]@ != keep,
        forall|i: int|
            0 <= i < entries.len() && is_version_dir_of(tool, entries[i]@) && entries[i]@ != keep
                ==> removed.contains(entries[i]),
    ensures
        forall|i: int|
            0 <= i < entries.len() && is_version_dir_of(tool, entries[i]@) && !removed.contains(
                entries[i],
            ) ==> entries[i]@ == keep,
{
}

} // verus!
