use dockerfile_tools::cache::{prune_outdated, version_directory};
use dockerfile_tools::errors::Error;
use dockerfile_tools::platform::{describe_platform, Arch, Os};
use dockerfile_tools::release::{expected_asset_name, select_asset, Asset, ReleaseInfo};
use dockerfile_tools::servers::{
    assemble_command, binary_path_override, classify_language_server, Command,
    DockerLanguageServer, DockerfileExtension, DockerfileLs, LspBinarySettings, ServerKind,
};
use dockerfile_tools::strutil::join_path;

fn s(x: &str) -> String {
    String::from(x)
}

#[test]
fn platform_extension_is_exe_iff_windows() {
    let oses = [Os::Mac, Os::Linux, Os::Windows];
    let arches = [Arch::Aarch64, Arch::X8664];
    for os in oses {
        for arch in arches {
            let Ok(triple) = describe_platform(os, arch) else {
                panic!("supported pair rejected")
            };
            let is_windows = matches!(os, Os::Windows);
            assert_eq!(triple.extension == ".exe", is_windows);
            if !is_windows {
                assert_eq!(triple.extension, "");
            }
        }
    }
}

#[test]
fn platform_names_are_normalized() {
    let Ok(t) = describe_platform(Os::Mac, Arch::Aarch64) else { panic!() };
    assert_eq!(t.os, "darwin");
    assert_eq!(t.arch, "arm64");
    let Ok(t) = describe_platform(Os::Linux, Arch::X8664) else { panic!() };
    assert_eq!(t.os, "linux");
    assert_eq!(t.arch, "amd64");
    let Ok(t) = describe_platform(Os::Windows, Arch::X8664) else { panic!() };
    assert_eq!(t.os, "windows");
}

#[test]
fn platform_x86_is_rejected_on_every_os() {
    for os in [Os::Mac, Os::Linux, Os::Windows] {
        let r = describe_platform(os, Arch::X86);
        assert!(matches!(r, Err(Error::UnsupportedPlatform)));
        let Err(e) = r else { panic!() };
        assert_eq!(e.message(), "unsupported architecture: x86");
    }
}

#[test]
fn expected_asset_name_is_deterministic_and_exact() {
    let Ok(triple) = describe_platform(Os::Linux, Arch::X8664) else { panic!() };
    let a = expected_asset_name("docker-language-server", &triple, "1.2.3");
    let b = expected_asset_name("docker-language-server", &triple, "1.2.3");
    assert_eq!(a, "docker-language-server-linux-amd64-1.2.3");
    assert_eq!(a, b);
    let Ok(win) = describe_platform(Os::Windows, Arch::Aarch64) else { panic!() };
    let c = expected_asset_name("mytool", &win, "2.0");
    assert_eq!(c, "mytool-windows-arm64-2.0.exe");
}

#[test]
fn select_asset_finds_first_exact_match() {
    let release = ReleaseInfo {
        version: s("1.2.3"),
        assets: vec![
            Asset { name: s("mytool-linux-amd64-1.2.2"), download_url: s("https://e/old") },
            Asset { name: s("mytool-linux-amd64-1.2.3"), download_url: s("https://e/first") },
            Asset { name: s("mytool-linux-amd64-1.2.3"), download_url: s("https://e/second") },
        ],
    };
    let Ok(a) = select_asset(&release, &s("mytool-linux-amd64-1.2.3")) else { panic!() };
    assert_eq!(a.download_url, "https://e/first");
}

#[test]
fn select_asset_reports_expected_name_when_absent() {
    let release = ReleaseInfo { version: s("1.0"), assets: vec![] };
    let r = select_asset(&release, &s("mytool-linux-amd64-1.0"));
    let Err(e) = r else { panic!() };
    assert!(matches!(&e, Error::AssetNotFound { expected } if expected == "mytool-linux-amd64-1.0"));
    assert_eq!(e.message(), "no asset found matching mytool-linux-amd64-1.0");
}

#[test]
fn version_directory_is_tool_dash_version() {
    assert_eq!(version_directory("docker-language-server", "0.3.0"), "docker-language-server-0.3.0");
    assert_eq!(join_path("dir-1.0", "tool"), "dir-1.0/tool");
    assert_eq!(join_path("dir/", "tool"), "dir/tool");
}

#[test]
fn prune_removes_every_other_version_directory() {
    let entries = vec![
        s("mytool-1.0.0"),
        s("unrelated.txt"),
        s("mytool-1.2.3"),
        s("other-2.0"),
        s("mytool-0.9"),
    ];
    let keep = s("mytool-1.2.3");
    let removed = prune_outdated(&entries, &s("mytool"), &keep);
    assert_eq!(removed, vec![s("mytool-1.0.0"), s("mytool-0.9")]);
    // Exactly one version directory of the tool remains: the one kept.
    let remaining: Vec<&String> = entries
        .iter()
        .filter(|e| e.starts_with("mytool-") && !removed.contains(e))
        .collect();
    assert_eq!(remaining, vec![&keep]);
}

#[test]
fn classify_language_server_knows_both_servers() {
    let r = classify_language_server(&s("dockerfile-language-server"));
    assert!(matches!(r, Ok(ServerKind::DockerfileLs)));
    let r = classify_language_server(&s("docker-language-server"));
    assert!(matches!(r, Ok(ServerKind::DockerLanguageServer)));
    let r = classify_language_server(&s("some-other-server"));
    let Err(e) = r else { panic!() };
    assert_eq!(e.message(), "unknown language server: some-other-server");
}

#[test]
fn assemble_command_prefers_settings_over_defaults() {
    let settings = Some(LspBinarySettings {
        path: Some(s("/custom/bin")),
        arguments: Some(vec![s("--custom")]),
        env: Some(vec![(s("K"), s("V"))]),
    });
    assert_eq!(binary_path_override(&settings), Some(s("/custom/bin")));
    let c: Command = assemble_command(&settings, s("/custom/bin"), vec![s("start")]);
    assert_eq!(c.command, "/custom/bin");
    assert_eq!(c.args, vec![s("--custom")]);
    assert_eq!(c.env, vec![(s("K"), s("V"))]);
}

#[test]
fn assemble_command_falls_back_to_defaults() {
    let settings: Option<LspBinarySettings> = None;
    assert_eq!(binary_path_override(&settings), None);
    let c = assemble_command(&settings, s("/resolved"), DockerLanguageServer::default_args());
    assert_eq!(c.command, "/resolved");
    assert_eq!(c.args, vec![s("start"), s("--stdio")]);
    assert!(c.env.is_empty());
}

#[test]
fn docker_language_server_command_uses_start_stdio_by_default() {
    let c = DockerLanguageServer::language_server_command(&None, s("/cache/dls"));
    assert_eq!(c.command, "/cache/dls");
    assert_eq!(c.args, vec![s("start"), s("--stdio")]);
    assert!(c.env.is_empty());
}

#[test]
fn dockerfile_ls_command_runs_the_script_under_node() {
    let c = DockerfileLs::language_server_command(&None, s("/usr/bin/node"), s("/cwd/script"));
    assert_eq!(c.command, "/usr/bin/node");
    assert_eq!(c.args, vec![s("/cwd/script"), s("--stdio")]);
    assert!(c.env.is_empty());

    let o = DockerfileLs::override_command(&None, s("/custom/langserver"));
    assert_eq!(o.command, "/custom/langserver");
    assert_eq!(o.args, vec![s("--stdio")]);

    let settings = Some(LspBinarySettings {
        path: None,
        arguments: Some(vec![s("--alt")]),
        env: None,
    });
    let c = DockerfileLs::language_server_command(&settings, s("/usr/bin/node"), s("/cwd/script"));
    assert_eq!(c.args, vec![s("--alt")]);
}

#[test]
fn server_constants_and_constructors() {
    let ext = DockerfileExtension::new();
    assert!(ext.dockerfile_ls.is_none());
    assert!(ext.docker_language_server.is_none());
    let d = DockerLanguageServer::new();
    assert!(d.cached_binary_path.is_none());
    assert_eq!(DockerLanguageServer::language_server_id(), "docker-language-server");
    let f = DockerfileLs::new();
    assert!(!f.did_find_server);
    assert_eq!(DockerfileLs::language_server_id(), "dockerfile-language-server");
    assert_eq!(DockerfileLs::package_name(), "dockerfile-language-server-nodejs");
    assert_eq!(
        DockerfileLs::server_path(),
        "node_modules/dockerfile-language-server-nodejs/bin/docker-langserver"
    );
    assert_eq!(DockerfileLs::override_default_args(), vec![s("--stdio")]);
    assert_eq!(
        DockerfileLs::node_default_args(s("/cwd/script")),
        vec![s("/cwd/script"), s("--stdio")]
    );
}
