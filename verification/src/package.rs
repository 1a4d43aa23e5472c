//! The package-manager installation strategy, modeled as an explicit state
//! machine like the binary-release one: the decisions stay verified while
//! the registry queries and filesystem checks are host actions.
//!
//! The flow: if a prior run of this process already resolved the entry and
//! it is still a regular file, succeed without touching the registry.
//! Otherwise query the latest version; install it when the entry is absent
//! or the installed version differs; tolerate an install failure when a
//! working copy is already present; and after a reported success,
//! re-verify that the expected entry path was produced. Success memoizes
//! itself for the remainder of the process run; a failing run leaves the
//! memoization flag exactly as it found it.

use vstd::prelude::*;

use vstd::pervasive::unreached;

use crate::errors::Error;
use crate::strutil::str_eq;

verus! {

/// What the strategy works on: the registry package and the entry path
/// the installed package is expected to provide.
pub struct PackageContext {
    pub package: String,
    pub entry_path: String,
}

/// Where the strategy stands: which host action it awaits an answer to.
/// Every non-terminal state carries `memoized`, the process-wide flag's
/// value when the run started, so a failing run can hand it back
/// unchanged: only a successful resolution ever raises the flag.
pub enum PackageState {
    /// Awaiting the stat of the entry path; `memoized` records whether a
    /// prior resolution in this process run succeeded.
    AwaitEntryStat { ctx: PackageContext, memoized: bool },
    /// Awaiting the registry's latest published version.
    AwaitLatest { ctx: PackageContext, entry_exists: bool, memoized: bool },
    /// Awaiting the locally installed version of the package.
    AwaitInstalledVersion {
        ctx: PackageContext,
        entry_exists: bool,
        latest: String,
        memoized: bool,
    },
    /// Awaiting the outcome of installing the latest version.
    AwaitInstall { ctx: PackageContext, memoized: bool },
    /// Awaiting the re-stat of the entry path after the install attempt.
    AwaitRecheck { ctx: PackageContext, install_result: Result<(), String>, memoized: bool },
    /// Terminal: the result was reported.
    Finished,
}

/// The memoization flag a non-terminal state carries.
pub open spec fn state_memoized(s: PackageState) -> bool {
    match s {
        PackageState::AwaitEntryStat { memoized, .. } => memoized,
        PackageState::AwaitLatest { memoized, .. } => memoized,
        PackageState::AwaitInstalledVersion { memoized, .. } => memoized,
        PackageState::AwaitInstall { memoized, .. } => memoized,
        PackageState::AwaitRecheck { memoized, .. } => memoized,
        PackageState::Finished => false,
    }
}

/// The next thing the host glue must do for the strategy.
pub enum PackageAction {
    /// Report whether the path exists as a regular file.
    StatEntry { path: String },
    /// Report checking-for-update status, then query the registry for the
    /// latest published version of the package.
    FetchLatestVersion { package: String },
    /// Query the locally installed version of the package.
    FetchInstalledVersion { package: String },
    /// Report downloading status, then install exactly this version.
    InstallPackage { package: String, version: String },
    /// Terminal outcome. `found` is the value the process-wide
    /// memoization flag takes for the remainder of the run: success
    /// raises it, failure leaves it as it was when the run started.
    Finish { result: Result<String, Error>, found: bool },
}

/// The host's answer to the last action.
#[allow(inconsistent_fields)]
pub enum PackageEvent {
    /// Answer to `StatEntry`.
    Stat { is_file: bool },
    /// Answer to `FetchLatestVersion`.
    LatestVersion { result: Result<String, String> },
    /// Answer to `FetchInstalledVersion`; `Ok(None)` means the package is
    /// not installed.
    InstalledVersion { result: Result<Option<String>, String> },
    /// Answer to `InstallPackage`.
    Completed { result: Result<(), String> },
}

/// Which event answers the action a state awaits.
pub open spec fn package_expects(s: PackageState, e: PackageEvent) -> bool {
    match s {
        PackageState::AwaitEntryStat { .. } => e is Stat,
        PackageState::AwaitLatest { .. } => e is LatestVersion,
        PackageState::AwaitInstalledVersion { .. } => e is InstalledVersion,
        PackageState::AwaitInstall { .. } => e is Completed,
        PackageState::AwaitRecheck { .. } => e is Stat,
        PackageState::Finished => false,
    }
}

/// The strategy's transition relation.
pub open spec fn package_step_spec(
    s: PackageState,
    e: PackageEvent,
    r: (PackageState, PackageAction),
) -> bool {
    match (s, e) {
        (PackageState::AwaitEntryStat { ctx, memoized }, PackageEvent::Stat { is_file }) => {
            if memoized && is_file {
                // A prior successful resolution and a still-valid entry:
                // succeed without any registry query.
                r == (
                    PackageState::Finished,
                    PackageAction::Finish {
                        result: Ok::<String, Error>(ctx.entry_path),
                        found: true,
                    },
                )
            } else {
                r == (
                    PackageState::AwaitLatest { ctx, entry_exists: is_file, memoized },
                    PackageAction::FetchLatestVersion { package: ctx.package },
                )
            }
        },
        (
            PackageState::AwaitLatest { ctx, entry_exists, memoized },
            PackageEvent::LatestVersion { result },
        ) => match result {
            Err(m) => r == (
                PackageState::Finished,
                PackageAction::Finish {
                    result: Err::<String, Error>(Error::InstallFailed { message: m }),
                    found: memoized,
                },
            ),
            Ok(v) => r == (
                PackageState::AwaitInstalledVersion { ctx, entry_exists, latest: v, memoized },
                PackageAction::FetchInstalledVersion { package: ctx.package },
            ),
        },
        (
            PackageState::AwaitInstalledVersion { ctx, entry_exists, latest, memoized },
            PackageEvent::InstalledVersion { result },
        ) => match result {
            Err(m) => r == (
                PackageState::Finished,
                PackageAction::Finish {
                    result: Err::<String, Error>(Error::InstallFailed { message: m }),
                    found: memoized,
                },
            ),
            Ok(installed) => {
                let up_to_date = entry_exists && (installed matches Some(v) && v@ == latest@);
                if up_to_date {
                    r == (
                        PackageState::Finished,
                        PackageAction::Finish {
                            result: Ok::<String, Error>(ctx.entry_path),
                            found: true,
                        },
                    )
                } else {
                    r == (
                        PackageState::AwaitInstall { ctx, memoized },
                        PackageAction::InstallPackage { package: ctx.package, version: latest },
                    )
                }
            },
        },
        (PackageState::AwaitInstall { ctx, memoized }, PackageEvent::Completed { result }) => r
            == (
            PackageState::AwaitRecheck { ctx, install_result: result, memoized },
            PackageAction::StatEntry { path: ctx.entry_path },
        ),
        (
            PackageState::AwaitRecheck { ctx, install_result, memoized },
            PackageEvent::Stat { is_file },
        ) => {
            if is_file {
                // The expected entry exists, whether the install succeeded
                // or a pre-existing copy is serving: success.
                r == (
                    PackageState::Finished,
                    PackageAction::Finish {
                        result: Ok::<String, Error>(ctx.entry_path),
                        found: true,
                    },
                )
            } else {
                match install_result {
                    Ok(u) => r == (
                        PackageState::Finished,
                        PackageAction::Finish {
                            result: Err::<String, Error>(
                                Error::InstallVerificationFailed {
                                    package: ctx.package,
                                    entry_path: ctx.entry_path,
                                },
                            ),
                            found: memoized,
                        },
                    ),
                    Err(m) => r == (
                        PackageState::Finished,
                        PackageAction::Finish {
                            result: Err::<String, Error>(Error::InstallFailed { message: m }),
                            found: memoized,
                        },
                    ),
                }
            }
        },
        _ => false,
    }
}

/// Starts a resolution run of the strategy: the first action is the stat
/// of the expected entry path.
pub fn package_start(ctx: PackageContext, memoized: bool) -> (r: (PackageState, PackageAction))
    ensures
        r.0 == (PackageState::AwaitEntryStat { ctx, memoized }),
        r.1 == (PackageAction::StatEntry { path: ctx.entry_path }),
{
    let path = ctx.entry_path.clone();
    (PackageState::AwaitEntryStat { ctx, memoized }, PackageAction::StatEntry { path })
}

/// One step of the strategy: consumes the answer to the awaited action
/// and returns the next state and the next action.
pub fn package_step(state: PackageState, event: PackageEvent) -> (r: (
    PackageState,
    PackageAction,
))
    requires
        package_expects(state, event),
    ensures
        package_step_spec(state, event, r),
{
    match (state, event) {
        (PackageState::AwaitEntryStat { ctx, memoized }, PackageEvent::Stat { is_file }) => {
            if memoized && is_file {
                (
                    PackageState::Finished,
                    PackageAction::Finish { result: Ok(ctx.entry_path), found: true },
                )
            } else {
                let package = ctx.package.clone();
                (
                    PackageState::AwaitLatest { ctx, entry_exists: is_file, memoized },
                    PackageAction::FetchLatestVersion { package },
                )
            }
        },
        (
            PackageState::AwaitLatest { ctx, entry_exists, memoized },
            PackageEvent::LatestVersion { result },
        ) => match result {
            Err(m) => (
                PackageState::Finished,
                PackageAction::Finish {
                    result: Err(Error::InstallFailed { message: m }),
                    found: memoized,
                },
            ),
            Ok(v) => {
                let package = ctx.package.clone();
                (
                    PackageState::AwaitInstalledVersion { ctx, entry_exists, latest: v, memoized },
                    PackageAction::FetchInstalledVersion { package },
                )
            },
        },
        (
            PackageState::AwaitInstalledVersion { ctx, entry_exists, latest, memoized },
            PackageEvent::InstalledVersion { result },
        ) => match result {
            Err(m) => (
                PackageState::Finished,
                PackageAction::Finish {
                    result: Err(Error::InstallFailed { message: m }),
                    found: memoized,
                },
            ),
            Ok(installed) => {
                let up_to_date = entry_exists && (match &installed {
                    Some(v) => str_eq(v.as_str(), latest.as_str()),
                    None => false,
                });
                if up_to_date {
                    (
                        PackageState::Finished,
                        PackageAction::Finish { result: Ok(ctx.entry_path), found: true },
                    )
                } else {
                    let package = ctx.package.clone();
                    (
                        PackageState::AwaitInstall { ctx, memoized },
                        PackageAction::InstallPackage { package, version: latest },
                    )
                }
            },
        },
        (PackageState::AwaitInstall { ctx, memoized }, PackageEvent::Completed { result }) => {
            let path = ctx.entry_path.clone();
            (
                PackageState::AwaitRecheck { ctx, install_result: result, memoized },
                PackageAction::StatEntry { path },
            )
        },
        (
            PackageState::AwaitRecheck { ctx, install_result, memoized },
            PackageEvent::Stat { is_file },
        ) => {
            if is_file {
                (
                    PackageState::Finished,
                    PackageAction::Finish { result: Ok(ctx.entry_path), found: true },
                )
            } else {
                match install_result {
                    Ok(u) => (
                        PackageState::Finished,
                        PackageAction::Finish {
                            result: Err(
                                Error::InstallVerificationFailed {
                                    package: ctx.package,
                                    entry_path: ctx.entry_path,
                                },
                            ),
                            found: memoized,
                        },
                    ),
                    Err(m) => (
                        PackageState::Finished,
                        PackageAction::Finish {
                            result: Err(Error::InstallFailed { message: m }),
                            found: memoized,
                        },
                    ),
                }
            }
        },
        _ => unreached(),
    }
}

/// Only success raises the memoization flag, and nothing clears it:
/// whenever a step finishes, the flag's new value `found` is true on
/// success and is exactly the value the run started with on failure.
pub proof fn lemma_failure_preserves_memoization(
    s: PackageState,
    e: PackageEvent,
    r: (PackageState, PackageAction),
)
    requires
        package_step_spec(s, e, r),
    ensures
        r.1 matches PackageAction::Finish { result, found } ==> found == (result is Ok
            || state_memoized(s)),
{
}

/// A memoized resolution with a still-valid entry issues no registry
/// action: the single stat answers the run.
pub proof fn lemma_memoized_entry_issues_no_registry_call(
    ctx: PackageContext,
    s0: PackageState,
    r1: (PackageState, PackageAction),
)
    requires
        s0 == (PackageState::AwaitEntryStat { ctx, memoized: true }),
        package_step_spec(s0, PackageEvent::Stat { is_file: true }, r1),
    ensures
        !(r1.1 is FetchLatestVersion),
        !(r1.1 is FetchInstalledVersion),
        !(r1.1 is InstallPackage),
        r1.0 is Finished,
        r1.1 == (PackageAction::Finish { result: Ok::<String, Error>(ctx.entry_path), found: true }),
{
}

} // verus!
