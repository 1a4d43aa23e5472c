//! The two language servers this crate resolves, and the assembly of the
//! final server command from host settings and the resolved binary or
//! script path.

use vstd::prelude::*;

use crate::errors::Error;
use crate::installer::{install_start, InstallAction, InstallContext, InstallState};
use crate::package::{package_start, PackageAction, PackageContext, PackageState};
use crate::platform::{Arch, Os};
use crate::strutil::{clone_opt_string, str_eq};

verus! {

/// A host-supplied override for a language server binary: when `path` is
/// set, it bypasses the entire resolution pipeline.
pub struct LspBinarySettings {
    pub path: Option<String>,
    pub arguments: Option<Vec<String>>,
    pub env: Option<Vec<(String, String)>>,
}

/// A process invocation: command, arguments and environment.
pub struct Command {
    pub command: String,
    pub args: Vec<String>,
    pub env: Vec<(String, String)>,
}

/// Copies a vector of strings.
pub fn clone_string_vec(v: &Vec<String>) -> (r: Vec<String>)
    ensures
        r@ == v@,
{
    let mut r: Vec<String> = Vec::new();
    let n = v.len();
    let mut i: usize = 0;
    while i < n
        invariant
            n == v@.len(),
            i <= n,
            r@.len() == i,
            forall|j: int| 0 <= j < i ==> r@[j] == v@[j],
        decreases n - i,
    {
        r.push(v[i].clone());
        i = i + 1;
    }
    proof {
        assert(r@ =~= v@);
    }
    r
}

/// Copies a vector of environment pairs.
pub fn clone_env_vec(v: &Vec<(String, String)>) -> (r: Vec<(String, String)>)
    ensures
        r@ == v@,
{
    let mut r: Vec<(String, String)> = Vec::new();
    let n = v.len();
    let mut i: usize = 0;
    while i < n
        invariant
            n == v@.len(),
            i <= n,
            r@.len() == i,
            forall|j: int| 0 <= j < i ==> r@[j] == v@[j],
        decreases n - i,
    {
        let p = &v[i];
        r.push((p.0.clone(), p.1.clone()));
        proof {
            assert(r@[i as int] == v@[i as int]);
        }
        i = i + 1;
    }
    proof {
        assert(r@ =~= v@);
    }
    r
}

/// Assembles the server command: the given command path, the settings'
/// arguments when present (else the given defaults), and the settings'
/// environment when present (else empty).
pub fn assemble_command(
    settings: &Option<LspBinarySettings>,
    command_path: String,
    default_args: Vec<String>,
) -> (c: Command)
    ensures
        c.command == command_path,
        c.args@ == (match *settings {
            Some(s) => match s.arguments {
                Some(a) => a@,
                None => default_args@,
            },
            None => default_args@,
        }),
        c.env@ == (match *settings {
            Some(s) => match s.env {
                Some(e) => e@,
                None => Seq::<(String, String)>::empty(),
            },
            None => Seq::<(String, String)>::empty(),
        }),
{
    let args = match settings {
        Some(s) => match &s.arguments {
            Some(a) => clone_string_vec(a),
            None => default_args,
        },
        None => default_args,
    };
    let env = match settings {
        Some(s) => match &s.env {
            Some(e) => clone_env_vec(e),
            None => Vec::new(),
        },
        None => Vec::new(),
    };
    Command { command: command_path, args, env }
}

/// The settings' path override, when one is present.
pub fn binary_path_override(settings: &Option<LspBinarySettings>) -> (r: Option<String>)
    ensures
        settings matches Some(s) ==> r == s.path,
        settings is None ==> r is None,
{
    match settings {
        Some(s) => clone_opt_string(&s.path),
        None => None,
    }
}

/// The arguments a settings override supplies, if any.
pub open spec fn settings_args(settings: Option<LspBinarySettings>) -> Option<Vec<String>> {
    match settings {
        Some(s) => s.arguments,
        None => None,
    }
}

/// The environment a settings override supplies, if any.
pub open spec fn settings_env(settings: Option<LspBinarySettings>) -> Option<Vec<(String, String)>> {
    match settings {
        Some(s) => s.env,
        None => None,
    }
}

/// The Docker language server: a binary distributed through release
/// assets, resolved by the binary-release strategy and cached under a
/// per-version directory.
pub struct DockerLanguageServer {
    pub cached_binary_path: Option<String>,
}

impl DockerLanguageServer {
    /// The identity of this language server.
    pub fn language_server_id() -> (r: String)
        ensures
            r@ == "docker-language-server"@,
    {
        String::from_str("docker-language-server")
    }

    /// A fresh instance with no cached binary path.
    pub fn new() -> (r: DockerLanguageServer)
        ensures
            r.cached_binary_path is None,
    {
        DockerLanguageServer { cached_binary_path: None }
    }

    /// Starts a resolution run of the binary-release strategy for this
    /// server on the given platform, from the currently cached path.
    pub fn start_resolution(&self, os: Os, arch: Arch) -> (r: (InstallState, InstallAction))
        ensures
            r.0 matches InstallState::AwaitWhich { ctx, cached } && ctx.tool@
                == "docker-language-server"@ && ctx.repository@ == "docker/docker-language-server"@
                && ctx.os == os && ctx.arch == arch && cached == self.cached_binary_path,
            r.1 matches InstallAction::CheckWhich { name } && name@ == "docker-language-server"@,
    {
        let ctx = InstallContext {
            tool: String::from_str("docker-language-server"),
            repository: String::from_str("docker/docker-language-server"),
            os,
            arch,
        };
        install_start(ctx, clone_opt_string(&self.cached_binary_path))
    }

    /// Records a successfully resolved binary path as current.
    pub fn record_resolved(&mut self, path: String)
        ensures
            final(self).cached_binary_path == Some(path),
    {
        self.cached_binary_path = Some(path);
    }

    /// The server command for a resolved (or overridden) binary path: the
    /// settings' arguments and environment when present, else the default
    /// `start --stdio` invocation with an empty environment.
    pub fn language_server_command(
        settings: &Option<LspBinarySettings>,
        binary_path: String,
    ) -> (c: Command)
        ensures
            c.command == binary_path,
            settings_args(*settings) matches Some(a) ==> c.args@ == a@,
            settings_args(*settings) is None ==> (c.args@.len() == 2 && c.args@[0]@ == "start"@
                && c.args@[1]@ == "--stdio"@),
            settings_env(*settings) matches Some(e) ==> c.env@ == e@,
            settings_env(*settings) is None ==> c.env@.len() == 0,
    {
        assemble_command(settings, binary_path, Self::default_args())
    }

    /// The arguments used when the settings supply none.
    pub fn default_args() -> (r: Vec<String>)
        ensures
            r@.len() == 2,
            r@[0]@ == "start"@,
            r@[1]@ == "--stdio"@,
    {
        let mut v: Vec<String> = Vec::new();
        v.push(String::from_str("start"));
        v.push(String::from_str("--stdio"));
        v
    }
}

/// The Dockerfile language server: a script distributed through a
/// package registry, resolved by the package-manager strategy and run
/// with the host's node runtime.
pub struct DockerfileLs {
    pub did_find_server: bool,
}

impl DockerfileLs {
    /// The identity of this language server.
    pub fn language_server_id() -> (r: String)
        ensures
            r@ == "dockerfile-language-server"@,
    {
        String::from_str("dockerfile-language-server")
    }

    /// The registry package that distributes the server.
    pub fn package_name() -> (r: String)
        ensures
            r@ == "dockerfile-language-server-nodejs"@,
    {
        String::from_str("dockerfile-language-server-nodejs")
    }

    /// The entry path the installed package is expected to provide.
    pub fn server_path() -> (r: String)
        ensures
            r@ == "node_modules/dockerfile-language-server-nodejs/bin/docker-langserver"@,
    {
        String::from_str("node_modules/dockerfile-language-server-nodejs/bin/docker-langserver")
    }

    /// A fresh instance that has not resolved the server yet.
    pub fn new() -> (r: DockerfileLs)
        ensures
            r.did_find_server == false,
    {
        DockerfileLs { did_find_server: false }
    }

    /// Starts a resolution run of the package-manager strategy for this
    /// server, memoized by whether a prior run of this process resolved
    /// it.
    pub fn start_resolution(&self) -> (r: (PackageState, PackageAction))
        ensures
            r.0 matches PackageState::AwaitEntryStat { ctx, memoized } && ctx.package@
                == "dockerfile-language-server-nodejs"@ && ctx.entry_path@
                == "node_modules/dockerfile-language-server-nodejs/bin/docker-langserver"@
                && memoized == self.did_find_server,
            r.1 matches PackageAction::StatEntry { path } && path@
                == "node_modules/dockerfile-language-server-nodejs/bin/docker-langserver"@,
    {
        let ctx = PackageContext {
            package: Self::package_name(),
            entry_path: Self::server_path(),
        };
        package_start(ctx, self.did_find_server)
    }

    /// Records whether resolution succeeded, memoizing success for the
    /// remainder of the process run.
    pub fn record_found(&mut self, found: bool)
        ensures
            final(self).did_find_server == found,
    {
        self.did_find_server = found;
    }

    /// The server command for the resolved script: the node runtime as the
    /// command, and, unless the settings override them, the absolute
    /// script path followed by `--stdio` as arguments.
    pub fn language_server_command(
        settings: &Option<LspBinarySettings>,
        node_path: String,
        script_path: String,
    ) -> (c: Command)
        ensures
            c.command == node_path,
            settings_args(*settings) matches Some(a) ==> c.args@ == a@,
            settings_args(*settings) is None ==> (c.args@.len() == 2 && c.args@[0] == script_path
                && c.args@[1]@ == "--stdio"@),
            settings_env(*settings) matches Some(e) ==> c.env@ == e@,
            settings_env(*settings) is None ==> c.env@.len() == 0,
    {
        assemble_command(settings, node_path, Self::node_default_args(script_path))
    }

    /// The server command when a settings override bypasses resolution:
    /// the overridden path, and `--stdio` unless the settings also
    /// override the arguments.
    pub fn override_command(settings: &Option<LspBinarySettings>, path: String) -> (c: Command)
        ensures
            c.command == path,
            settings_args(*settings) matches Some(a) ==> c.args@ == a@,
            settings_args(*settings) is None ==> (c.args@.len() == 1 && c.args@[0]@ == "--stdio"@),
            settings_env(*settings) matches Some(e) ==> c.env@ == e@,
            settings_env(*settings) is None ==> c.env@.len() == 0,
    {
        assemble_command(settings, path, Self::override_default_args())
    }

    /// The arguments used when the settings supply none and a path
    /// override bypasses resolution.
    pub fn override_default_args() -> (r: Vec<String>)
        ensures
            r@.len() == 1,
            r@[0]@ == "--stdio"@,
    {
        let mut v: Vec<String> = Vec::new();
        v.push(String::from_str("--stdio"));
        v
    }

    /// The arguments used when the settings supply none and the resolved
    /// script runs under the node runtime: the absolute script path, then
    /// `--stdio`.
    pub fn node_default_args(script_path: String) -> (r: Vec<String>)
        ensures
            r@.len() == 2,
            r@[0] == script_path,
            r@[1]@ == "--stdio"@,
    {
        let mut v: Vec<String> = Vec::new();
        v.push(script_path);
        v.push(String::from_str("--stdio"));
        v
    }
}

/// Which of the two language servers an identity names.
pub enum ServerKind {
    DockerfileLs,
    DockerLanguageServer,
}

/// The extension's root state: one lazily created instance per language
/// server.
pub struct DockerfileExtension {
    pub dockerfile_ls: Option<DockerfileLs>,
    pub docker_language_server: Option<DockerLanguageServer>,
}

impl DockerfileExtension {
    /// A fresh extension with no server instances yet.
    pub fn new() -> (r: DockerfileExtension)
        ensures
            r.dockerfile_ls is None,
            r.docker_language_server is None,
    {
        DockerfileExtension { dockerfile_ls: None, docker_language_server: None }
    }
}

/// Resolves a language-server identity to the server that serves it;
/// fails with `UnknownLanguageServer` on every other identity.
pub fn classify_language_server(id: &String) -> (r: Result<ServerKind, Error>)
    ensures
        id@ == "dockerfile-language-server"@ <==> (r matches Ok(k) && k is DockerfileLs),
        id@ == "docker-language-server"@ <==> (r matches Ok(k) && k is DockerLanguageServer),
        r matches Err(e) ==> (e matches Error::UnknownLanguageServer { id: x } && x == *id),
{
    proof {
        reveal_strlit("dockerfile-language-server");
        reveal_strlit("docker-language-server");
        // The two identities differ already in length.
        assert("dockerfile-language-server"@.len() == 26);
        assert("docker-language-server"@.len() == 22);
        assert("dockerfile-language-server"@ != "docker-language-server"@);
    }
    if str_eq(id.as_str(), "dockerfile-language-server") {
        Ok(ServerKind::DockerfileLs)
    } else if str_eq(id.as_str(), "docker-language-server") {
        Ok(ServerKind::DockerLanguageServer)
    } else {
        Err(Error::UnknownLanguageServer { id: id.clone() })
    }
}

} // verus!
