//! The binary-release installation strategy, modeled as an explicit state
//! machine. Each step consumes the outcome of the previous host action
//! (a path lookup, a file stat, a release query, a download) and decides
//! the next action; the host glue performs the actions. This keeps every
//! decision of the install flow verified while the I/O stays outside.
//!
//! The flow, in order: ask whether the tool is already on the search path;
//! check the cached binary; query the release index; select the platform
//! asset; create the version directory; download and mark executable
//! unless the target file already exists; prune older versions
//! (best-effort); report the resolved path.

use vstd::prelude::*;

use vstd::pervasive::unreached;

use crate::cache::{spec_version_directory, version_directory};
use crate::errors::Error;
use crate::platform::{describe_platform, spec_arch_name, spec_extension, spec_os_name, Arch, Os};
use crate::release::{expected_asset_name, has_asset_named, select_asset, spec_asset_name, Asset,
    ReleaseInfo};
use crate::strutil::{join_path, spec_join_path};

verus! {

/// What the installer works on: the tool identity (used for artifact
/// names, file names and directory names), the repository queried for
/// releases, and the host platform.
pub struct InstallContext {
    pub tool: String,
    pub repository: String,
    pub os: Os,
    pub arch: Arch,
}

/// An install decided on: where it downloads from and what it writes.
pub struct PendingInstall {
    pub tool: String,
    pub url: String,
    pub version_dir: String,
    pub binary_path: String,
}

/// Where the installer stands: which host action it awaits an answer to.
pub enum InstallState {
    /// Awaiting the search-path lookup of the tool.
    AwaitWhich { ctx: InstallContext, cached: Option<String> },
    /// Awaiting the stat of the previously cached binary path.
    AwaitCacheStat { ctx: InstallContext, path: String },
    /// Awaiting the release-index query.
    AwaitRelease { ctx: InstallContext },
    /// Awaiting creation of the version directory.
    AwaitDirCreated { pending: PendingInstall },
    /// Awaiting the stat of the target binary path.
    AwaitBinaryStat { pending: PendingInstall },
    /// Awaiting the download of the selected asset.
    AwaitDownload { pending: PendingInstall },
    /// Awaiting the binary being marked executable.
    AwaitChmod { pending: PendingInstall },
    /// Awaiting the best-effort pruning of older version directories.
    AwaitPrune { binary_path: String },
    /// Terminal: the result was reported.
    Finished,
}

/// The next thing the host glue must do for the installer.
pub enum InstallAction {
    /// Look the name up on the execution search path.
    CheckWhich { name: String },
    /// Report whether the path exists as a regular file.
    StatFile { path: String },
    /// Report checking-for-update status, then query the release index of
    /// the repository for the latest release.
    FetchRelease { repository: String },
    /// Create the directory (and its parents) if it is not there yet.
    CreateDir { path: String },
    /// Report downloading status, then fetch the URL to the path as an
    /// uncompressed artifact.
    DownloadFile { url: String, path: String },
    /// Mark the file executable.
    MakeExecutable { path: String },
    /// Remove every version directory of the tool other than `keep`.
    PruneOthers { tool: String, keep: String },
    /// Terminal outcome: the resolved binary path, or the failure.
    /// `record` says whether to record an Ok path as the cached current
    /// binary: a search-path hit bypasses all caching, and a cached-path
    /// hit is already recorded, so only a path verified under the version
    /// directory is recorded anew.
    Finish { result: Result<String, Error>, record: bool },
}

/// The host's answer to the last action.
#[allow(inconsistent_fields)]
pub enum InstallEvent {
    /// Answer to `CheckWhich`.
    Which { path: Option<String> },
    /// Answer to `StatFile`: whether a regular file exists there.
    Stat { is_file: bool },
    /// Answer to `FetchRelease`.
    Release { result: Result<ReleaseInfo, String> },
    /// Answer to `CreateDir`, `DownloadFile`, `MakeExecutable` or
    /// `PruneOthers`.
    Completed { result: Result<(), String> },
}

/// Which event answers the action a state awaits.
pub open spec fn install_expects(s: InstallState, e: InstallEvent) -> bool {
    match s {
        InstallState::AwaitWhich { .. } => e is Which,
        InstallState::AwaitCacheStat { .. } => e is Stat,
        InstallState::AwaitRelease { .. } => e is Release,
        InstallState::AwaitDirCreated { .. } => e is Completed,
        InstallState::AwaitBinaryStat { .. } => e is Stat,
        InstallState::AwaitDownload { .. } => e is Completed,
        InstallState::AwaitChmod { .. } => e is Completed,
        InstallState::AwaitPrune { .. } => e is Completed,
        InstallState::Finished => false,
    }
}

/// The transition taken when the release query succeeded: reject an empty
/// asset list, resolve the platform, select the asset by its expected
/// name, and move on to creating the version directory.
pub open spec fn release_step_spec(
    ctx: InstallContext,
    rel: ReleaseInfo,
    r: (InstallState, InstallAction),
) -> bool {
    if rel.assets@.len() == 0 {
        r.0 is Finished && (r.1 matches InstallAction::Finish { result: Err(e), record } && record
            == false && (e matches Error::NoReleaseFound { repository } && repository
            == ctx.repository))
    } else if ctx.arch is X86 {
        r == (
            InstallState::Finished,
            InstallAction::Finish { result: Err(Error::UnsupportedPlatform), record: false },
        )
    } else {
        let expected = spec_asset_name(
            ctx.tool@,
            spec_os_name(ctx.os),
            spec_arch_name(ctx.arch),
            rel.version@,
            spec_extension(ctx.os),
        );
        let vdir = spec_version_directory(ctx.tool@, rel.version@);
        if has_asset_named(rel.assets@, expected) {
            &&& (r.0 matches InstallState::AwaitDirCreated { pending }
                && pending.tool == ctx.tool
                && pending.version_dir@ == vdir
                && pending.binary_path@ == spec_join_path(vdir, ctx.tool@) + spec_extension(ctx.os)
                && exists|i: int|
                    0 <= i < rel.assets@.len() && rel.assets@[i].name@ == expected
                        && pending.url == rel.assets@[i].download_url && (forall|j: int|
                        0 <= j < i ==> rel.assets@[j].name@ != expected))
            &&& (r.1 matches InstallAction::CreateDir { path } && path@ == vdir)
        } else {
            r.0 is Finished && (r.1 matches InstallAction::Finish { result: Err(e), record }
                && record == false && (e matches Error::AssetNotFound { expected: x } && x@
                == expected))
        }
    }
}

/// The installer's transition relation: what each state does with the
/// event it awaited.
pub open spec fn install_step_spec(
    s: InstallState,
    e: InstallEvent,
    r: (InstallState, InstallAction),
) -> bool {
    match (s, e) {
        (
            InstallState::AwaitWhich { ctx, cached },
            InstallEvent::Which { path },
        ) => match path {
            // Resolvable on the search path: terminal success, no caching.
            Some(p) => r == (
                InstallState::Finished,
                InstallAction::Finish { result: Ok::<String, Error>(p), record: false },
            ),
            None => match cached {
                Some(c) => r == (
                    InstallState::AwaitCacheStat { ctx, path: c },
                    InstallAction::StatFile { path: c },
                ),
                None => r == (
                    InstallState::AwaitRelease { ctx },
                    InstallAction::FetchRelease { repository: ctx.repository },
                ),
            },
        },
        (InstallState::AwaitCacheStat { ctx, path }, InstallEvent::Stat { is_file }) => {
            if is_file {
                // A valid cached binary short-circuits before any network
                // call is made.
                r == (
                    InstallState::Finished,
                    InstallAction::Finish {
                        result: Ok::<String, Error>(path),
                        record: false,
                    },
                )
            } else {
                r == (
                    InstallState::AwaitRelease { ctx },
                    InstallAction::FetchRelease { repository: ctx.repository },
                )
            }
        },
        (InstallState::AwaitRelease { ctx }, InstallEvent::Release { result }) => match result {
            Err(m) => r == (
                InstallState::Finished,
                InstallAction::Finish {
                    result: Err::<String, Error>(Error::InstallFailed { message: m }),
                    record: false,
                },
            ),
            Ok(rel) => release_step_spec(ctx, rel, r),
        },
        (
            InstallState::AwaitDirCreated { pending },
            InstallEvent::Completed { result },
        ) => match result {
            Err(m) => r == (
                InstallState::Finished,
                InstallAction::Finish {
                    result: Err::<String, Error>(Error::DirectoryCreationFailed { message: m }),
                    record: false,
                },
            ),
            Ok(u) => r == (
                InstallState::AwaitBinaryStat { pending },
                InstallAction::StatFile { path: pending.binary_path },
            ),
        },
        (InstallState::AwaitBinaryStat { pending }, InstallEvent::Stat { is_file }) => {
            if is_file {
                // The target file already exists as a valid file: resuming
                // after a partial prior run skips download, chmod and prune.
                r == (
                    InstallState::Finished,
                    InstallAction::Finish {
                        result: Ok::<String, Error>(pending.binary_path),
                        record: true,
                    },
                )
            } else {
                r == (
                    InstallState::AwaitDownload { pending },
                    InstallAction::DownloadFile { url: pending.url, path: pending.binary_path },
                )
            }
        },
        (
            InstallState::AwaitDownload { pending },
            InstallEvent::Completed { result },
        ) => match result {
            Err(m) => r == (
                InstallState::Finished,
                InstallAction::Finish {
                    result: Err::<String, Error>(Error::DownloadFailed { message: m }),
                    record: false,
                },
            ),
            Ok(u) => r == (
                InstallState::AwaitChmod { pending },
                InstallAction::MakeExecutable { path: pending.binary_path },
            ),
        },
        (
            InstallState::AwaitChmod { pending },
            InstallEvent::Completed { result },
        ) => match result {
            Err(m) => r == (
                InstallState::Finished,
                InstallAction::Finish {
                    result: Err::<String, Error>(Error::MakeExecutableFailed { message: m }),
                    record: false,
                },
            ),
            Ok(u) => r == (
                InstallState::AwaitPrune { binary_path: pending.binary_path },
                InstallAction::PruneOthers { tool: pending.tool, keep: pending.version_dir },
            ),
        },
        // Pruning is best-effort: its outcome never invalidates the
        // install that was just verified.
        (InstallState::AwaitPrune { binary_path }, InstallEvent::Completed { result }) => r == (
            InstallState::Finished,
            InstallAction::Finish { result: Ok::<String, Error>(binary_path), record: true },
        ),
        _ => false,
    }
}

/// Starts a resolution run: the first action is always the search-path
/// lookup, before any cache check or network call.
pub fn install_start(ctx: InstallContext, cached: Option<String>) -> (r: (
    InstallState,
    InstallAction,
))
    ensures
        r.0 == (InstallState::AwaitWhich { ctx, cached }),
        r.1 == (InstallAction::CheckWhich { name: ctx.tool }),
{
    let name = ctx.tool.clone();
    (InstallState::AwaitWhich { ctx, cached }, InstallAction::CheckWhich { name })
}

/// One step of the installer: consumes the answer to the awaited action
/// and returns the next state and the next action.
pub fn install_step(state: InstallState, event: InstallEvent) -> (r: (
    InstallState,
    InstallAction,
))
    requires
        install_expects(state, event),
    ensures
        install_step_spec(state, event, r),
{
    match (state, event) {
        (InstallState::AwaitWhich { ctx, cached }, InstallEvent::Which { path }) => match path {
            Some(p) => (
                InstallState::Finished,
                InstallAction::Finish { result: Ok(p), record: false },
            ),
            None => match cached {
                Some(c) => {
                    let probe = c.clone();
                    (
                        InstallState::AwaitCacheStat { ctx, path: c },
                        InstallAction::StatFile { path: probe },
                    )
                },
                None => {
                    let repository = ctx.repository.clone();
                    (
                        InstallState::AwaitRelease { ctx },
                        InstallAction::FetchRelease { repository },
                    )
                },
            },
        },
        (InstallState::AwaitCacheStat { ctx, path }, InstallEvent::Stat { is_file }) => {
            if is_file {
                (
                    InstallState::Finished,
                    InstallAction::Finish { result: Ok(path), record: false },
                )
            } else {
                let repository = ctx.repository.clone();
                (InstallState::AwaitRelease { ctx }, InstallAction::FetchRelease { repository })
            }
        },
        (InstallState::AwaitRelease { ctx }, InstallEvent::Release { result }) => match result {
            Err(m) => (
                InstallState::Finished,
                InstallAction::Finish {
                    result: Err(Error::InstallFailed { message: m }),
                    record: false,
                },
            ),
            Ok(rel) => release_step(ctx, rel),
        },
        (InstallState::AwaitDirCreated { pending }, InstallEvent::Completed { result }) => {
            match result {
                Err(m) => (
                    InstallState::Finished,
                    InstallAction::Finish {
                        result: Err(Error::DirectoryCreationFailed { message: m }),
                        record: false,
                    },
                ),
                Ok(u) => {
                    let probe = pending.binary_path.clone();
                    (
                        InstallState::AwaitBinaryStat { pending },
                        InstallAction::StatFile { path: probe },
                    )
                },
            }
        },
        (InstallState::AwaitBinaryStat { pending }, InstallEvent::Stat { is_file }) => {
            if is_file {
                (
                    InstallState::Finished,
                    InstallAction::Finish { result: Ok(pending.binary_path), record: true },
                )
            } else {
                let url = pending.url.clone();
                let path = pending.binary_path.clone();
                (
                    InstallState::AwaitDownload { pending },
                    InstallAction::DownloadFile { url, path },
                )
            }
        },
        (InstallState::AwaitDownload { pending }, InstallEvent::Completed { result }) => {
            match result {
                Err(m) => (
                    InstallState::Finished,
                    InstallAction::Finish {
                        result: Err(Error::DownloadFailed { message: m }),
                        record: false,
                    },
                ),
                Ok(u) => {
                    let path = pending.binary_path.clone();
                    (
                        InstallState::AwaitChmod { pending },
                        InstallAction::MakeExecutable { path },
                    )
                },
            }
        },
        (InstallState::AwaitChmod { pending }, InstallEvent::Completed { result }) => {
            match result {
                Err(m) => (
                    InstallState::Finished,
                    InstallAction::Finish {
                        result: Err(Error::MakeExecutableFailed { message: m }),
                        record: false,
                    },
                ),
                Ok(u) => (
                    InstallState::AwaitPrune { binary_path: pending.binary_path },
                    InstallAction::PruneOthers { tool: pending.tool, keep: pending.version_dir },
                ),
            }
        },
        (InstallState::AwaitPrune { binary_path }, InstallEvent::Completed { result }) => (
            InstallState::Finished,
            InstallAction::Finish { result: Ok(binary_path), record: true },
        ),
        _ => unreached(),
    }
}

/// Handles a successful release query: rejects a release without assets,
/// resolves the platform, selects the asset and decides the install.
fn release_step(ctx: InstallContext, rel: ReleaseInfo) -> (r: (InstallState, InstallAction))
    ensures
        release_step_spec(ctx, rel, r),
{
    if rel.assets.len() == 0 {
        let repository = ctx.repository;
        return (
            InstallState::Finished,
            InstallAction::Finish {
                result: Err(Error::NoReleaseFound { repository }),
                record: false,
            },
        );
    }
    let triple = match describe_platform(ctx.os, ctx.arch) {
        Ok(t) => t,
        Err(e) => {
            return (
                InstallState::Finished,
                InstallAction::Finish { result: Err(e), record: false },
            );
        },
    };
    let expected = expected_asset_name(ctx.tool.as_str(), &triple, rel.version.as_str());
    let asset = match select_asset(&rel, &expected) {
        Ok(a) => a,
        Err(e) => {
            return (
                InstallState::Finished,
                InstallAction::Finish { result: Err(e), record: false },
            );
        },
    };
    let version_dir = version_directory(ctx.tool.as_str(), rel.version.as_str());
    let mut binary_path = join_path(version_dir.as_str(), ctx.tool.as_str());
    binary_path.append(triple.extension.as_str());
    let dir_action = version_dir.clone();
    let pending = PendingInstall {
        tool: ctx.tool,
        url: asset.download_url,
        version_dir,
        binary_path,
    };
    (InstallState::AwaitDirCreated { pending }, InstallAction::CreateDir { path: dir_action })
}

/// With a valid cached binary, a resolution run issues no network action:
/// when the search-path lookup misses and the cached path stats as a
/// regular file, the run finishes with that path, and neither step asked
/// for a release query or a download.
pub proof fn lemma_valid_cache_issues_no_network(
    ctx: InstallContext,
    cached_path: String,
    s0: InstallState,
    r1: (InstallState, InstallAction),
    r2: (InstallState, InstallAction),
)
    requires
        s0 == (InstallState::AwaitWhich { ctx, cached: Some(cached_path) }),
        install_step_spec(s0, InstallEvent::Which { path: None }, r1),
        install_step_spec(r1.0, InstallEvent::Stat { is_file: true }, r2),
    ensures
        !(r1.1 is FetchRelease),
        !(r1.1 is DownloadFile),
        !(r2.1 is FetchRelease),
        !(r2.1 is DownloadFile),
        r2.0 is Finished,
        r2.1 == (InstallAction::Finish {
            result: Ok::<String, Error>(cached_path),
            record: false,
        }),
{
}

} // verus!
