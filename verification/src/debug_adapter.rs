//! Translating host debug requests into `docker buildx` invocations:
//! classifying the request kind, building the scenario configuration, and
//! resolving the final adapter invocation with defaults injected.

use vstd::prelude::*;

use crate::errors::Error;
use crate::jsonio::{parse_debug_config, parse_json, spec_config_json, spec_json_field,
    spec_parse_config, spec_parse_json, ConfigView, DockerfileDebugConfig, JsonField};
use crate::strutil::{join_path, opt_view, spec_join_path, str_eq};

verus! {

/// The kind of debug request: launching a new build, or attaching to a
/// running one (which this adapter never supports).
pub enum RequestKind {
    Launch,
    Attach,
}

/// A generic launch intent: the program (here, the Dockerfile), its
/// working directory and pass-through arguments.
pub struct LaunchRequest {
    pub program: String,
    pub cwd: Option<String>,
    pub args: Vec<String>,
}

/// The host's generic "run this" intent.
pub enum DebugRequest {
    Launch(LaunchRequest),
    Attach,
}

/// The host-side debug configuration handed to scenario building.
pub struct DebugConfig {
    pub adapter: String,
    pub label: String,
    pub request: DebugRequest,
    pub stop_on_entry: Option<bool>,
}

/// The tool-specific scenario derived from a launch intent; `config` is
/// the JSON text of the adapter configuration.
pub struct DebugScenario {
    pub adapter: String,
    pub label: String,
    pub config: String,
}

/// The final process invocation of the debug adapter.
pub struct DebugAdapterBinary {
    pub command: Option<String>,
    pub arguments: Vec<String>,
    pub envs: Vec<(String, String)>,
    pub cwd: Option<String>,
    pub request_kind: RequestKind,
    pub configuration: String,
}

/// When a debug request classifies as a supported launch: the adapter is
/// the one this crate serves, and the `request` field is the string
/// `launch`.
pub open spec fn request_kind_ok(adapter: Seq<char>, field: JsonField) -> bool {
    adapter == "buildx-dockerfile"@ && (field matches JsonField::Str(s) && s@ == "launch"@)
}

/// Classifies a raw debug request: succeeds exactly when the adapter name
/// is the supported one and the configuration's `request` field is the
/// string `launch`; an unknown adapter fails with `UnsupportedAdapter`,
/// anything else (including `attach`) with `UnsupportedRequestKind`.
pub fn dap_request_kind(adapter_name: &String, value: &serde_json::Value) -> (r: Result<
    RequestKind,
    Error,
>)
    ensures
        r is Ok <==> request_kind_ok(adapter_name@, spec_json_field(*value, "request"@)),
        r matches Ok(k) ==> k is Launch,
        adapter_name@ != "buildx-dockerfile"@ ==> (r matches Err(e) && (
        e matches Error::UnsupportedAdapter { adapter } && adapter == *adapter_name)),
        adapter_name@ == "buildx-dockerfile"@ ==> (r is Ok || (r matches Err(e) && e
            is UnsupportedRequestKind)),
{
    if !str_eq(adapter_name.as_str(), "buildx-dockerfile") {
        return Err(Error::UnsupportedAdapter { adapter: adapter_name.clone() });
    }
    match crate::jsonio::json_field(value, "request") {
        JsonField::Str(s) => {
            if str_eq(s.as_str(), "launch") {
                Ok(RequestKind::Launch)
            } else {
                Err(Error::UnsupportedRequestKind)
            }
        },
        _ => Err(Error::UnsupportedRequestKind),
    }
}

/// Attach requests are always rejected: whatever the adapter name, a
/// `request` field holding `attach` never classifies as a supported
/// launch.
pub proof fn lemma_attach_always_rejected(adapter: Seq<char>, field: JsonField)
    requires
        field matches JsonField::Str(s) && s@ == "attach"@,
    ensures
        !request_kind_ok(adapter, field),
{
    reveal_strlit("attach");
    reveal_strlit("launch");
    assert("attach"@[0] == 'a');
    assert("launch"@[0] == 'l');
}

/// The configuration content a launch intent turns into.
pub open spec fn spec_scenario_config(l: LaunchRequest, stop_on_entry: Option<bool>) -> ConfigView {
    ConfigView {
        context_path: opt_view(l.cwd),
        dockerfile: Some(l.program@),
        request: "launch"@,
        args: l.args@.map_values(|a: String| a@),
        stop_on_entry,
        target: None,
    }
}

/// Builds the tool-specific scenario for a launch intent: the program
/// path becomes the Dockerfile, the working directory the build context,
/// and `request` is set to `launch`. Attach intents fail immediately.
pub fn dap_config_to_scenario(config: DebugConfig) -> (r: Result<DebugScenario, Error>)
    ensures
        r is Ok <==> config.request is Launch,
        config.request is Attach ==> (r matches Err(e) && e
            is UnsupportedDebugRequestVariant),
        config.request matches DebugRequest::Launch(l) ==> (r matches Ok(s) && s.adapter
            == config.adapter && s.label == config.label && s.config@ == spec_config_json(
            spec_scenario_config(l, config.stop_on_entry),
        )),
{
    match config.request {
        DebugRequest::Launch(l) => {
            let ghost gl = l;
            let scenario_config = DockerfileDebugConfig {
                context_path: l.cwd,
                dockerfile: Some(l.program),
                request: String::from_str("launch"),
                args: l.args,
                stop_on_entry: config.stop_on_entry,
                target: None,
            };
            proof {
                assert(scenario_config@ =~= spec_scenario_config(gl, config.stop_on_entry));
            }
            let text = crate::jsonio::serialize_config(&scenario_config);
            Ok(DebugScenario { adapter: config.adapter, label: config.label, config: text })
        },
        DebugRequest::Attach => Err(Error::UnsupportedDebugRequestVariant),
    }
}

/// A parsed configuration with defaults injected: an unset build context
/// becomes the workspace root, an unset Dockerfile becomes `Dockerfile`
/// under the workspace root.
pub open spec fn spec_injected(c: ConfigView, root: Seq<char>) -> ConfigView {
    ConfigView {
        context_path: Some(
            match c.context_path {
                Some(p) => p,
                None => root,
            },
        ),
        dockerfile: Some(
            match c.dockerfile {
                Some(d) => d,
                None => spec_join_path(root, "Dockerfile"@),
            },
        ),
        request: c.request,
        args: c.args,
        stop_on_entry: c.stop_on_entry,
        target: c.target,
    }
}

/// Resolves the final adapter invocation: validates the adapter name,
/// reads the stored configuration, injects the workspace-root defaults,
/// and produces the fixed `docker buildx dap build` command with the
/// user's build arguments appended, the experimental-feature environment
/// flag, and the workspace root as working directory.
pub fn get_dap_binary(
    adapter_name: &String,
    config_json: &String,
    worktree_root: &String,
) -> (r: Result<DebugAdapterBinary, Error>)
    ensures
        adapter_name@ != "buildx-dockerfile"@ ==> (r matches Err(e) && (
        e matches Error::UnsupportedAdapter { adapter } && adapter == *adapter_name)),
        r is Ok <==> (adapter_name@ == "buildx-dockerfile"@ && (
        spec_parse_json(config_json@) matches Some(v) && spec_parse_config(v) is Some)),
        adapter_name@ == "buildx-dockerfile"@ ==> (r is Ok || (r matches Err(e) && e
            is InvalidConfig)),
        r matches Ok(b) ==> ({
            let v = spec_parse_json(config_json@)->Some_0;
            let c = spec_parse_config(v)->Some_0;
            let inj = spec_injected(c, worktree_root@);
            &&& (b.command matches Some(cmd) && cmd@ == "docker"@)
            &&& b.arguments@.len() == 3 + c.args.len()
            &&& b.arguments@[0]@ == "buildx"@
            &&& b.arguments@[1]@ == "dap"@
            &&& b.arguments@[2]@ == "build"@
            &&& (forall|i: int| 0 <= i < c.args.len() ==> b.arguments@[3 + i]@ == c.args[i])
            &&& b.envs@.len() == 1
            &&& b.envs@[0].0@ == "BUILDX_EXPERIMENTAL"@
            &&& b.envs@[0].1@ == "1"@
            &&& (b.cwd matches Some(w) && w@ == worktree_root@)
            &&& b.request_kind is Launch
            &&& b.configuration@ == spec_config_json(inj)
        }),
{
    if !str_eq(adapter_name.as_str(), "buildx-dockerfile") {
        return Err(Error::UnsupportedAdapter { adapter: adapter_name.clone() });
    }
    let value = match parse_json(config_json.as_str()) {
        Ok(v) => v,
        Err(m) => {
            let mut msg = String::from_str("`config` is not a valid JSON: ");
            msg.append(m.as_str());
            return Err(Error::InvalidConfig { message: msg });
        },
    };
    let cfg = match parse_debug_config(&value) {
        Ok(c) => c,
        Err(e) => {
            return Err(e);
        },
    };
    let ghost c = spec_parse_config(spec_parse_json(config_json@)->Some_0)->Some_0;
    let context_path = match cfg.context_path {
        Some(p) => Some(p),
        None => Some(worktree_root.clone()),
    };
    let dockerfile = match cfg.dockerfile {
        Some(d) => Some(d),
        None => Some(join_path(worktree_root.as_str(), "Dockerfile")),
    };
    let injected = DockerfileDebugConfig {
        context_path,
        dockerfile,
        request: cfg.request,
        args: cfg.args,
        stop_on_entry: cfg.stop_on_entry,
        target: cfg.target,
    };
    proof {
        assert(injected@ =~= spec_injected(c, worktree_root@));
    }
    let configuration = crate::jsonio::serialize_config(&injected);
    let mut arguments: Vec<String> = Vec::new();
    arguments.push(String::from_str("buildx"));
    arguments.push(String::from_str("dap"));
    arguments.push(String::from_str("build"));
    let n = injected.args.len();
    let mut i: usize = 0;
    while i < n
        invariant
            n == injected.args@.len(),
            i <= n,
            injected.args@.map_values(|s: String| s@) == c.args,
            arguments@.len() == 3 + i,
            arguments@[0]@ == "buildx"@,
            arguments@[1]@ == "dap"@,
            arguments@[2]@ == "build"@,
            forall|j: int| 0 <= j < i ==> arguments@[3 + j]@ == c.args[j],
        decreases n - i,
    {
        arguments.push(injected.args[i].clone());
        i = i + 1;
    }
    let mut envs: Vec<(String, String)> = Vec::new();
    envs.push((String::from_str("BUILDX_EXPERIMENTAL"), String::from_str("1")));
    Ok(
        DebugAdapterBinary {
            command: Some(String::from_str("docker")),
            arguments,
            envs,
            cwd: Some(worktree_root.clone()),
            request_kind: RequestKind::Launch,
            configuration,
        },
    )
}

} // verus!
