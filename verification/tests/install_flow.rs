use dockerfile_tools::errors::Error;
use dockerfile_tools::installer::{
    install_start, install_step, InstallAction, InstallContext, InstallEvent, InstallState,
};
use dockerfile_tools::package::{
    package_start, package_step, PackageAction, PackageEvent, PackageState,
};
use dockerfile_tools::platform::{Arch, Os};
use dockerfile_tools::release::{Asset, ReleaseInfo};
use dockerfile_tools::servers::{DockerLanguageServer, DockerfileLs};

fn s(x: &str) -> String {
    String::from(x)
}

fn ctx() -> InstallContext {
    InstallContext {
        tool: s("mytool"),
        repository: s("example/mytool"),
        os: Os::Linux,
        arch: Arch::X8664,
    }
}

fn release_123() -> ReleaseInfo {
    ReleaseInfo {
        version: s("1.2.3"),
        assets: vec![Asset {
            name: s("mytool-linux-amd64-1.2.3"),
            download_url: s("https://example.com/mytool"),
        }],
    }
}

#[test]
fn fresh_install_downloads_exactly_the_matching_asset() {
    let (st, a) = install_start(ctx(), None);
    assert!(matches!(&a, InstallAction::CheckWhich { name } if name == "mytool"));

    let (st, a) = install_step(st, InstallEvent::Which { path: None });
    assert!(matches!(&a, InstallAction::FetchRelease { repository } if repository == "example/mytool"));

    let (st, a) = install_step(st, InstallEvent::Release { result: Ok(release_123()) });
    assert!(matches!(&a, InstallAction::CreateDir { path } if path == "mytool-1.2.3"));

    let (st, a) = install_step(st, InstallEvent::Completed { result: Ok(()) });
    assert!(matches!(&a, InstallAction::StatFile { path } if path == "mytool-1.2.3/mytool"));

    let (st, a) = install_step(st, InstallEvent::Stat { is_file: false });
    assert!(matches!(
        &a,
        InstallAction::DownloadFile { url, path }
            if url == "https://example.com/mytool" && path == "mytool-1.2.3/mytool"
    ));

    let (st, a) = install_step(st, InstallEvent::Completed { result: Ok(()) });
    assert!(matches!(&a, InstallAction::MakeExecutable { path } if path == "mytool-1.2.3/mytool"));

    let (st, a) = install_step(st, InstallEvent::Completed { result: Ok(()) });
    assert!(matches!(
        &a,
        InstallAction::PruneOthers { tool, keep } if tool == "mytool" && keep == "mytool-1.2.3"
    ));

    let (st, a) = install_step(st, InstallEvent::Completed { result: Ok(()) });
    assert!(matches!(st, InstallState::Finished));
    assert!(matches!(&a, InstallAction::Finish { result: Ok(p), record: true }
        if p == "mytool-1.2.3/mytool"));
}

#[test]
fn second_run_with_valid_cache_issues_no_network_call() {
    let cached = s("mytool-1.2.3/mytool");
    let (st, a) = install_start(ctx(), Some(cached.clone()));
    assert!(matches!(&a, InstallAction::CheckWhich { name } if name == "mytool"));
    assert!(!matches!(&a, InstallAction::FetchRelease { .. } | InstallAction::DownloadFile { .. }));

    let (st, a) = install_step(st, InstallEvent::Which { path: None });
    assert!(matches!(&a, InstallAction::StatFile { path } if *path == cached));
    assert!(!matches!(&a, InstallAction::FetchRelease { .. } | InstallAction::DownloadFile { .. }));

    let (st, a) = install_step(st, InstallEvent::Stat { is_file: true });
    assert!(matches!(st, InstallState::Finished));
    assert!(!matches!(&a, InstallAction::FetchRelease { .. } | InstallAction::DownloadFile { .. }));
    assert!(matches!(&a, InstallAction::Finish { result: Ok(p), record: false } if *p == cached));
}

#[test]
fn search_path_hit_short_circuits_everything() {
    let (st, _a) = install_start(ctx(), None);
    let (st, a) = install_step(st, InstallEvent::Which { path: Some(s("/usr/bin/mytool")) });
    assert!(matches!(st, InstallState::Finished));
    assert!(matches!(&a, InstallAction::Finish { result: Ok(p), record: false }
        if p == "/usr/bin/mytool"));
}

#[test]
fn release_without_assets_fails_before_any_directory_is_created() {
    let (st, _a) = install_start(ctx(), None);
    let (st, _a) = install_step(st, InstallEvent::Which { path: None });
    let empty = ReleaseInfo { version: s("9.9.9"), assets: vec![] };
    let (st, a) = install_step(st, InstallEvent::Release { result: Ok(empty) });
    // Terminal failure right away: no CreateDir action was ever produced.
    assert!(matches!(st, InstallState::Finished));
    let InstallAction::Finish { result: Err(e), .. } = a else { panic!("expected terminal failure") };
    assert!(matches!(&e, Error::NoReleaseFound { repository } if repository == "example/mytool"));
    assert_eq!(e.message(), "no release with downloadable assets found for example/mytool");
}

#[test]
fn release_query_failure_is_terminal() {
    let (st, _a) = install_start(ctx(), None);
    let (st, _a) = install_step(st, InstallEvent::Which { path: None });
    let (st, a) = install_step(
        st,
        InstallEvent::Release { result: Err(s("network unreachable")) },
    );
    assert!(matches!(st, InstallState::Finished));
    let InstallAction::Finish { result: Err(e), .. } = a else { panic!() };
    assert_eq!(e.message(), "network unreachable");
    assert!(matches!(e, Error::InstallFailed { .. }));
}

#[test]
fn x86_host_fails_after_release_query() {
    let mut c = ctx();
    c.arch = Arch::X86;
    let (st, _a) = install_start(c, None);
    let (st, _a) = install_step(st, InstallEvent::Which { path: None });
    let (st, a) = install_step(st, InstallEvent::Release { result: Ok(release_123()) });
    assert!(matches!(st, InstallState::Finished));
    let InstallAction::Finish { result: Err(e), .. } = a else { panic!() };
    assert!(matches!(e, Error::UnsupportedPlatform));
}

#[test]
fn missing_asset_reports_the_expected_name() {
    let (st, _a) = install_start(ctx(), None);
    let (st, _a) = install_step(st, InstallEvent::Which { path: None });
    let other = ReleaseInfo {
        version: s("1.2.3"),
        assets: vec![Asset { name: s("mytool-darwin-arm64-1.2.3"), download_url: s("u") }],
    };
    let (_st, a) = install_step(st, InstallEvent::Release { result: Ok(other) });
    let InstallAction::Finish { result: Err(e), .. } = a else { panic!() };
    assert_eq!(e.message(), "no asset found matching mytool-linux-amd64-1.2.3");
}

#[test]
fn directory_download_and_chmod_failures_are_terminal() {
    // Directory creation failure.
    let (st, _a) = install_start(ctx(), None);
    let (st, _a) = install_step(st, InstallEvent::Which { path: None });
    let (st, _a) = install_step(st, InstallEvent::Release { result: Ok(release_123()) });
    let (_st, a) = install_step(st, InstallEvent::Completed { result: Err(s("disk full")) });
    let InstallAction::Finish { result: Err(e), .. } = a else { panic!() };
    assert_eq!(e.message(), "failed to create directory: disk full");

    // Download failure.
    let (st, _a) = install_start(ctx(), None);
    let (st, _a) = install_step(st, InstallEvent::Which { path: None });
    let (st, _a) = install_step(st, InstallEvent::Release { result: Ok(release_123()) });
    let (st, _a) = install_step(st, InstallEvent::Completed { result: Ok(()) });
    let (st, _a) = install_step(st, InstallEvent::Stat { is_file: false });
    let (_st, a) = install_step(st, InstallEvent::Completed { result: Err(s("404")) });
    let InstallAction::Finish { result: Err(e), .. } = a else { panic!() };
    assert_eq!(e.message(), "failed to download file: 404");

    // Chmod failure.
    let (st, _a) = install_start(ctx(), None);
    let (st, _a) = install_step(st, InstallEvent::Which { path: None });
    let (st, _a) = install_step(st, InstallEvent::Release { result: Ok(release_123()) });
    let (st, _a) = install_step(st, InstallEvent::Completed { result: Ok(()) });
    let (st, _a) = install_step(st, InstallEvent::Stat { is_file: false });
    let (st, _a) = install_step(st, InstallEvent::Completed { result: Ok(()) });
    let (_st, a) = install_step(st, InstallEvent::Completed { result: Err(s("perm")) });
    let InstallAction::Finish { result: Err(e), .. } = a else { panic!() };
    assert_eq!(e.message(), "failed to make file executable: perm");
}

#[test]
fn existing_target_file_skips_download_and_prune() {
    let (st, _a) = install_start(ctx(), None);
    let (st, _a) = install_step(st, InstallEvent::Which { path: None });
    let (st, _a) = install_step(st, InstallEvent::Release { result: Ok(release_123()) });
    let (st, _a) = install_step(st, InstallEvent::Completed { result: Ok(()) });
    let (st, a) = install_step(st, InstallEvent::Stat { is_file: true });
    assert!(matches!(st, InstallState::Finished));
    assert!(matches!(&a, InstallAction::Finish { result: Ok(p), record: true }
        if p == "mytool-1.2.3/mytool"));
}

#[test]
fn prune_failure_does_not_invalidate_the_install() {
    let (st, _a) = install_start(ctx(), None);
    let (st, _a) = install_step(st, InstallEvent::Which { path: None });
    let (st, _a) = install_step(st, InstallEvent::Release { result: Ok(release_123()) });
    let (st, _a) = install_step(st, InstallEvent::Completed { result: Ok(()) });
    let (st, _a) = install_step(st, InstallEvent::Stat { is_file: false });
    let (st, _a) = install_step(st, InstallEvent::Completed { result: Ok(()) });
    let (st, _a) = install_step(st, InstallEvent::Completed { result: Ok(()) });
    let (st, a) = install_step(st, InstallEvent::Completed { result: Err(s("busy")) });
    assert!(matches!(st, InstallState::Finished));
    assert!(matches!(&a, InstallAction::Finish { result: Ok(p), record: true }
        if p == "mytool-1.2.3/mytool"));
}

fn pkg_ctx() -> dockerfile_tools::package::PackageContext {
    dockerfile_tools::package::PackageContext {
        package: s("dockerfile-language-server-nodejs"),
        entry_path: s("node_modules/dockerfile-language-server-nodejs/bin/docker-langserver"),
    }
}

#[test]
fn memoized_entry_issues_no_registry_call() {
    let (st, a) = package_start(pkg_ctx(), true);
    assert!(matches!(&a, PackageAction::StatEntry { path }
        if path == "node_modules/dockerfile-language-server-nodejs/bin/docker-langserver"));
    let (st, a) = package_step(st, PackageEvent::Stat { is_file: true });
    assert!(matches!(st, PackageState::Finished));
    assert!(!matches!(
        &a,
        PackageAction::FetchLatestVersion { .. }
            | PackageAction::FetchInstalledVersion { .. }
            | PackageAction::InstallPackage { .. }
    ));
    assert!(matches!(&a, PackageAction::Finish { result: Ok(p), found: true }
        if p == "node_modules/dockerfile-language-server-nodejs/bin/docker-langserver"));
}

#[test]
fn up_to_date_entry_skips_installation() {
    let (st, _a) = package_start(pkg_ctx(), false);
    let (st, a) = package_step(st, PackageEvent::Stat { is_file: true });
    assert!(matches!(&a, PackageAction::FetchLatestVersion { package }
        if package == "dockerfile-language-server-nodejs"));
    let (st, a) = package_step(st, PackageEvent::LatestVersion { result: Ok(s("0.11.0")) });
    assert!(matches!(&a, PackageAction::FetchInstalledVersion { .. }));
    let (st, a) = package_step(
        st,
        PackageEvent::InstalledVersion { result: Ok(Some(s("0.11.0"))) },
    );
    assert!(matches!(st, PackageState::Finished));
    assert!(matches!(&a, PackageAction::Finish { result: Ok(_), found: true }));
}

#[test]
fn stale_version_is_reinstalled_and_reverified() {
    let (st, _a) = package_start(pkg_ctx(), false);
    let (st, _a) = package_step(st, PackageEvent::Stat { is_file: true });
    let (st, _a) = package_step(st, PackageEvent::LatestVersion { result: Ok(s("0.12.0")) });
    let (st, a) = package_step(
        st,
        PackageEvent::InstalledVersion { result: Ok(Some(s("0.11.0"))) },
    );
    assert!(matches!(&a, PackageAction::InstallPackage { package, version }
        if package == "dockerfile-language-server-nodejs" && version == "0.12.0"));
    let (st, a) = package_step(st, PackageEvent::Completed { result: Ok(()) });
    assert!(matches!(&a, PackageAction::StatEntry { .. }));
    let (st, a) = package_step(st, PackageEvent::Stat { is_file: true });
    assert!(matches!(st, PackageState::Finished));
    assert!(matches!(&a, PackageAction::Finish { result: Ok(_), found: true }));
}

#[test]
fn install_failure_with_existing_entry_succeeds_with_the_existing_copy() {
    let (st, _a) = package_start(pkg_ctx(), false);
    let (st, _a) = package_step(st, PackageEvent::Stat { is_file: true });
    let (st, _a) = package_step(st, PackageEvent::LatestVersion { result: Ok(s("0.12.0")) });
    let (st, _a) = package_step(
        st,
        PackageEvent::InstalledVersion { result: Ok(Some(s("0.11.0"))) },
    );
    let (st, _a) = package_step(
        st,
        PackageEvent::Completed { result: Err(s("registry unavailable")) },
    );
    let (st, a) = package_step(st, PackageEvent::Stat { is_file: true });
    assert!(matches!(st, PackageState::Finished));
    assert!(matches!(&a, PackageAction::Finish { result: Ok(p), found: true }
        if p == "node_modules/dockerfile-language-server-nodejs/bin/docker-langserver"));
}

#[test]
fn install_failure_without_entry_propagates() {
    let (st, _a) = package_start(pkg_ctx(), false);
    let (st, _a) = package_step(st, PackageEvent::Stat { is_file: false });
    let (st, _a) = package_step(st, PackageEvent::LatestVersion { result: Ok(s("0.12.0")) });
    let (st, _a) = package_step(st, PackageEvent::InstalledVersion { result: Ok(None) });
    let (st, _a) = package_step(
        st,
        PackageEvent::Completed { result: Err(s("registry unavailable")) },
    );
    let (st, a) = package_step(st, PackageEvent::Stat { is_file: false });
    assert!(matches!(st, PackageState::Finished));
    let PackageAction::Finish { result: Err(e), found: false } = a else { panic!() };
    assert_eq!(e.message(), "registry unavailable");
}

#[test]
fn reported_success_without_entry_fails_verification() {
    let (st, _a) = package_start(pkg_ctx(), false);
    let (st, _a) = package_step(st, PackageEvent::Stat { is_file: false });
    let (st, _a) = package_step(st, PackageEvent::LatestVersion { result: Ok(s("0.12.0")) });
    let (st, _a) = package_step(st, PackageEvent::InstalledVersion { result: Ok(None) });
    let (st, _a) = package_step(st, PackageEvent::Completed { result: Ok(()) });
    let (st, a) = package_step(st, PackageEvent::Stat { is_file: false });
    assert!(matches!(st, PackageState::Finished));
    let PackageAction::Finish { result: Err(e), found: false } = a else { panic!() };
    assert!(matches!(e, Error::InstallVerificationFailed { .. }));
    assert_eq!(
        e.message(),
        "installed package 'dockerfile-language-server-nodejs' did not contain expected path \
         'node_modules/dockerfile-language-server-nodejs/bin/docker-langserver'"
    );
}

#[test]
fn failed_run_leaves_memoization_flag_unchanged() {
    // A prior run succeeded; now the entry is gone and the reinstall
    // fails. The flag the run hands back is still raised: failure never
    // clears a memoized success.
    let (st, _a) = package_start(pkg_ctx(), true);
    let (st, _a) = package_step(st, PackageEvent::Stat { is_file: false });
    let (st, _a) = package_step(st, PackageEvent::LatestVersion { result: Ok(s("0.12.0")) });
    let (st, _a) = package_step(st, PackageEvent::InstalledVersion { result: Ok(None) });
    let (st, _a) = package_step(st, PackageEvent::Completed { result: Err(s("registry down")) });
    let (st, a) = package_step(st, PackageEvent::Stat { is_file: false });
    assert!(matches!(st, PackageState::Finished));
    assert!(matches!(&a, PackageAction::Finish { result: Err(_), found: true }));

    // The same failing run started without a memoized success leaves the
    // flag down.
    let (st, _a) = package_start(pkg_ctx(), false);
    let (st, _a) = package_step(st, PackageEvent::Stat { is_file: false });
    let (st, a) = package_step(st, PackageEvent::LatestVersion { result: Err(s("offline")) });
    assert!(matches!(st, PackageState::Finished));
    assert!(matches!(&a, PackageAction::Finish { result: Err(_), found: false }));
}

#[test]
fn registry_query_failure_is_terminal() {
    let (st, _a) = package_start(pkg_ctx(), false);
    let (st, _a) = package_step(st, PackageEvent::Stat { is_file: false });
    let (st, a) = package_step(st, PackageEvent::LatestVersion { result: Err(s("offline")) });
    assert!(matches!(st, PackageState::Finished));
    let PackageAction::Finish { result: Err(e), found: false } = a else { panic!() };
    assert_eq!(e.message(), "offline");
}

#[test]
fn server_types_drive_their_strategies() {
    let mut d = DockerLanguageServer::new();
    let (st, a) = d.start_resolution(Os::Linux, Arch::X8664);
    assert!(matches!(&a, InstallAction::CheckWhich { name } if name == "docker-language-server"));
    let (st, a) = install_step(st, InstallEvent::Which { path: Some(s("/usr/bin/dls")) });
    assert!(matches!(st, InstallState::Finished));
    let InstallAction::Finish { result: Ok(p), record } = a else { panic!() };
    // A search-path hit bypasses all caching.
    assert!(!record);
    if record {
        d.record_resolved(p);
    }
    assert_eq!(d.cached_binary_path, None);

    let mut f = DockerfileLs::new();
    let (st, _a) = f.start_resolution();
    let (st, a) = package_step(st, PackageEvent::Stat { is_file: true });
    assert!(matches!(&a, PackageAction::FetchLatestVersion { .. }));
    let _ = st;
    f.record_found(true);
    assert!(f.did_find_server);
}
