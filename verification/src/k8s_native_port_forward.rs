//! The native pod port-forward capability: its configuration and defaults,
//! the command-line override rules, target resolution, and the bridging
//! command run inside the pod.  The cluster calls themselves (listing pods,
//! attaching a session) are the host program's work; the decisions around
//! them live here.

use crate::host::{ArgKind, ArgSpec, CapabilityDescriptor};
use crate::protocol::{spec_effective_protocol, Protocol};
use crate::strutil::{spec_dec, u64_dec};
use vstd::prelude::*;
use vstd::string::StringExecFns;

verus! {

/// The relay capability's configuration: where to listen, which pod to
/// reach and on which port, and which protocol to classify.
pub struct K8sNativeConfig {
    pub namespace: String,
    pub pod_name: Option<String>,
    pub pod_selector: Option<String>,
    pub local_port: u16,
    pub remote_port: u16,
    pub protocol: Option<String>,
}

impl Default for K8sNativeConfig {
    /// The configuration used when no file is present: namespace `default`,
    /// no target yet, local port 8080 to remote port 80, plain TCP.
    fn default() -> (c: K8sNativeConfig)
        ensures
            c.namespace@ == "default"@,
            c.pod_name is None,
            c.pod_selector is None,
            c.local_port == 8080,
            c.remote_port == 80,
            c.protocol matches Some(p) && p@ == "tcp"@,
    {
        K8sNativeConfig {
            namespace: String::from_str("default"),
            pod_name: None,
            pod_selector: None,
            local_port: 8080,
            remote_port: 80,
            protocol: Some(String::from_str("tcp")),
        }
    }
}

/// The command-line overrides the relay subcommand accepts.
pub struct CliOverrides {
    pub pod: Option<String>,
    pub selector: Option<String>,
    pub namespace: Option<String>,
    pub local_port: Option<u16>,
    pub remote_port: Option<u16>,
}

/// A fatal usage error: bad overrides, or no target at all.
#[derive(Debug)]
pub enum UsageError {
    /// A pod name override must not be empty.
    EmptyPodName,
    /// A selector override must not be empty.
    EmptyPodSelector,
    /// A namespace override must not be empty.
    EmptyNamespace,
    /// Neither a pod name nor a selector was given, in the configuration
    /// or on the command line.
    MissingTarget,
}

/// The pod name in force after the overrides: a selector override clears
/// the name, a pod override replaces it, otherwise the configured name
/// stands.
pub open spec fn merged_pod_name(cfg: K8sNativeConfig, ov: CliOverrides) -> Option<String> {
    if ov.selector is Some {
        None
    } else if ov.pod is Some {
        ov.pod
    } else {
        cfg.pod_name
    }
}

/// The selector in force after the overrides: a pod override clears it,
/// a selector override replaces it, otherwise the configured one stands.
pub open spec fn merged_pod_selector(cfg: K8sNativeConfig, ov: CliOverrides) -> Option<String> {
    if ov.selector is Some {
        ov.selector
    } else if ov.pod is Some {
        None
    } else {
        cfg.pod_selector
    }
}

/// Whether the pod override is present and empty, which is rejected.
pub open spec fn empty_pod_override(ov: CliOverrides) -> bool {
    ov.pod matches Some(p) && p@.len() == 0
}

/// Whether the selector override is present and empty, which is rejected.
pub open spec fn empty_selector_override(ov: CliOverrides) -> bool {
    ov.selector matches Some(s) && s@.len() == 0
}

/// Whether the namespace override is present and empty, which is rejected.
pub open spec fn empty_namespace_override(ov: CliOverrides) -> bool {
    ov.namespace matches Some(n) && n@.len() == 0
}

/// Applies the command-line overrides to the configuration.  Empty-string
/// overrides are rejected in option order; pod and selector overrides clear
/// each other; and a configuration left with neither pod name nor selector
/// is a fatal usage error.
pub fn apply_overrides(cfg: K8sNativeConfig, ov: CliOverrides) -> (r: Result<
    K8sNativeConfig,
    UsageError,
>)
    ensures
        match r {
            Ok(c) => {
                &&& !empty_pod_override(ov)
                &&& !empty_selector_override(ov)
                &&& !empty_namespace_override(ov)
                &&& c.pod_name == merged_pod_name(cfg, ov)
                &&& c.pod_selector == merged_pod_selector(cfg, ov)
                &&& !(c.pod_name is None && c.pod_selector is None)
                &&& c.namespace == (match ov.namespace {
                    Some(n) => n,
                    None => cfg.namespace,
                })
                &&& c.local_port == (match ov.local_port {
                    Some(p) => p,
                    None => cfg.local_port,
                })
                &&& c.remote_port == (match ov.remote_port {
                    Some(p) => p,
                    None => cfg.remote_port,
                })
                &&& c.protocol == cfg.protocol
            },
            Err(e) => match e {
                UsageError::EmptyPodName => empty_pod_override(ov),
                UsageError::EmptyPodSelector => !empty_pod_override(ov) && empty_selector_override(
                    ov,
                ),
                UsageError::EmptyNamespace => !empty_pod_override(ov) && !empty_selector_override(
                    ov,
                ) && empty_namespace_override(ov),
                UsageError::MissingTarget => {
                    &&& !empty_pod_override(ov)
                    &&& !empty_selector_override(ov)
                    &&& !empty_namespace_override(ov)
                    &&& merged_pod_name(cfg, ov) is None
                    &&& merged_pod_selector(cfg, ov) is None
                },
            },
        },
{
    let mut c = cfg;
    match ov.pod {
        Some(p) => {
            if p.as_str().is_empty() {
                return Err(UsageError::EmptyPodName);
            }
            c.pod_name = Some(p);
            c.pod_selector = None;
        },
        None => {},
    }
    match ov.selector {
        Some(s) => {
            if s.as_str().is_empty() {
                return Err(UsageError::EmptyPodSelector);
            }
            c.pod_selector = Some(s);
            c.pod_name = None;
        },
        None => {},
    }
    match ov.namespace {
        Some(n) => {
            if n.as_str().is_empty() {
                return Err(UsageError::EmptyNamespace);
            }
            c.namespace = n;
        },
        None => {},
    }
    match ov.local_port {
        Some(p) => {
            c.local_port = p;
        },
        None => {},
    }
    match ov.remote_port {
        Some(p) => {
            c.remote_port = p;
        },
        None => {},
    }
    if c.pod_name.is_none() && c.pod_selector.is_none() {
        return Err(UsageError::MissingTarget);
    }
    Ok(c)
}

/// The target a forward aims at: an explicit pod name, or a label selector
/// to look one up with.
pub enum TargetSelector {
    ByName(String),
    BySelector(String),
}

/// Everything one forward needs: the namespace, the target, both ports,
/// and the protocol to classify.
pub struct ForwardSpec {
    pub namespace: String,
    pub selector: TargetSelector,
    pub local_port: u16,
    pub remote_port: u16,
    pub protocol: Protocol,
}

/// Turns a validated configuration and a protocol override into a forward
/// plan.  An explicit pod name wins over a selector; with neither, the
/// target is missing and the run is a fatal usage error.
pub fn forward_plan(cfg: K8sNativeConfig, protocol_override: Option<String>) -> (r: Result<
    ForwardSpec,
    UsageError,
>)
    ensures
        match r {
            Ok(f) => {
                &&& (match cfg.pod_name {
                    Some(n) => f.selector matches TargetSelector::ByName(m) && m == n,
                    None => match cfg.pod_selector {
                        Some(s) => f.selector matches TargetSelector::BySelector(t) && t == s,
                        None => false,
                    },
                })
                &&& f.namespace == cfg.namespace
                &&& f.local_port == cfg.local_port
                &&& f.remote_port == cfg.remote_port
                &&& f.protocol == spec_effective_protocol(
                    match protocol_override {
                        Some(o) => Some(o@),
                        None => None,
                    },
                    match cfg.protocol {
                        Some(c) => Some(c@),
                        None => None,
                    },
                )
            },
            Err(e) => e is MissingTarget && cfg.pod_name is None && cfg.pod_selector is None,
        },
{
    let protocol = crate::protocol::effective_protocol(&protocol_override, &cfg.protocol);
    let selector = match cfg.pod_name {
        Some(n) => TargetSelector::ByName(n),
        None => match cfg.pod_selector {
            Some(s) => TargetSelector::BySelector(s),
            None => {
                return Err(UsageError::MissingTarget);
            },
        },
    };
    Ok(
        ForwardSpec {
            namespace: cfg.namespace,
            selector,
            local_port: cfg.local_port,
            remote_port: cfg.remote_port,
            protocol,
        },
    )
}

/// What target resolution does next: an explicit name is used as it stands,
/// without any listing call; only a selector needs the pods listed.
pub enum ResolveStep {
    /// Use this pod name as-is; no existence check before the session opens.
    UseName(String),
    /// List the pods of the namespace matching this selector.
    NeedListing(String),
}

/// A fatal resolution error.
#[derive(Debug)]
pub enum ResolutionError {
    /// No pod matches this selector.
    NoMatch(String),
    /// The listing's first pod carries no name.
    UnnamedPod,
}

/// Which pod a listing settled on: the first of the listing order, with
/// every named match reported informationally.
pub struct PodChoice {
    pub chosen: String,
    pub matches: Vec<String>,
}

/// The names carried by a pod listing, in listing order.
pub open spec fn named_pods(pods: Seq<Option<String>>) -> Seq<Seq<char>>
    decreases pods.len(),
{
    if pods.len() == 0 {
        Seq::empty()
    } else {
        named_pods(pods.drop_last()) + (match pods.last() {
            Some(n) => seq![n@],
            None => Seq::empty(),
        })
    }
}

impl ForwardSpec {
    /// The first step of resolution.  An explicit pod name is returned
    /// as it stands — no listing call is made for it.
    pub fn resolve_step(&self) -> (r: ResolveStep)
        ensures
            match self.selector {
                TargetSelector::ByName(n) => r matches ResolveStep::UseName(m) && m@ == n@,
                TargetSelector::BySelector(s) => r matches ResolveStep::NeedListing(t) && t@ == s@,
            },
    {
        match &self.selector {
            TargetSelector::ByName(n) => ResolveStep::UseName(n.clone()),
            TargetSelector::BySelector(s) => ResolveStep::NeedListing(s.clone()),
        }
    }
}

/// Settles a selector against the listed pods' names, in listing order.
/// Zero matches is a fatal resolution error; one match is used; more than
/// one selects the first and reports them all informationally, with no
/// further tie-break rule.
pub fn select_pod(selector: &String, pod_names: Vec<Option<String>>) -> (r: Result<
    PodChoice,
    ResolutionError,
>)
    ensures
        match r {
            Ok(c) => {
                &&& pod_names@.len() > 0
                &&& pod_names@[0] matches Some(first) && c.chosen@ == first@
                &&& c.matches@.len() == named_pods(pod_names@).len()
                &&& forall|k: int|
                    0 <= k < c.matches@.len() ==> c.matches@[k]@ == #[trigger] named_pods(
                        pod_names@,
                    )[k]
            },
            Err(e) => match e {
                ResolutionError::NoMatch(s) => pod_names@.len() == 0 && s@ == selector@,
                ResolutionError::UnnamedPod => pod_names@.len() > 0 && pod_names@[0] is None,
            },
        },
{
    if pod_names.len() == 0 {
        return Err(ResolutionError::NoMatch(selector.clone()));
    }
    let chosen = match &pod_names[0] {
        Some(n) => n.clone(),
        None => {
            return Err(ResolutionError::UnnamedPod);
        },
    };
    let mut matches: Vec<String> = Vec::new();
    let n = pod_names.len();
    let mut i: usize = 0;
    assert(named_pods(pod_names@.take(0)) =~= Seq::<Seq<char>>::empty());
    while i < n
        invariant
            i <= n,
            n == pod_names@.len(),
            matches@.len() == named_pods(pod_names@.take(i as int)).len(),
            forall|k: int|
                0 <= k < matches@.len() ==> matches@[k]@ == #[trigger] named_pods(
                    pod_names@.take(i as int),
                )[k],
        decreases n - i,
    {
        proof {
            assert(pod_names@.take(i + 1).drop_last() =~= pod_names@.take(i as int));
            assert(pod_names@.take(i + 1).last() == pod_names@[i as int]);
        }
        match &pod_names[i] {
            Some(name) => {
                matches.push(name.clone());
            },
            None => {},
        }
        i = i + 1;
    }
    assert(pod_names@.take(n as int) =~= pod_names@);
    Ok(PodChoice { chosen, matches })
}

/// The bridging command run inside the pod: it opens a loopback connection
/// to the remote port on descriptor 3, copies that connection to the
/// session's stdout in the background, copies the session's stdin into the
/// connection in the foreground, and on stdin EOF kills the background copy
/// and closes the descriptor.
pub fn bridge_command(remote_port: u16) -> (r: Vec<String>)
    ensures
        r@.len() == 3,
        r@[0]@ == "bash"@,
        r@[1]@ == "-c"@,
        r@[2]@ == "exec 3<>/dev/tcp/localhost/"@ + spec_dec(remote_port as nat)
            + "; (cat <&3 &); cat >&3; kill %1 2>/dev/null; exec 3>&-"@,
{
    let mut script = String::from_str("exec 3<>/dev/tcp/localhost/");
    let port = u64_dec(remote_port as u64);
    script.append(port.as_str());
    script.append("; (cat <&3 &); cat >&3; kill %1 2>/dev/null; exec 3>&-");
    let mut r: Vec<String> = Vec::new();
    r.push(String::from_str("bash"));
    r.push(String::from_str("-c"));
    r.push(script);
    r
}

/// The relay capability itself: the descriptor side that the host composes
/// into its CLI.  Execution — the listener loop, the cluster session, the
/// copy tasks — is the host program's work, driven by this crate's
/// decision functions.
pub struct K8sNativePortForwardPlugin;

impl K8sNativePortForwardPlugin {
    /// A sample configuration file.  The text is illustrative only.
    pub fn sample_config() -> &'static str {
        "# Kubernetes Native Port Forward Configuration\nnamespace = \"default\"\npod_name = \"my-pod\"  # Either use pod_name OR pod_selector\n# pod_selector = \"app=nginx,version=v1\"  # Label selector alternative\nlocal_port = 8080\nremote_port = 80\nprotocol = \"http\"  # Options: tcp, http, postgres\n\n# Example configurations:\n# For HTTP service:\n# protocol = \"http\"\n# local_port = 8080\n# remote_port = 80\n\n# For PostgreSQL database:\n# protocol = \"postgres\"\n# local_port = 5432\n# remote_port = 5432\n\n# For generic TCP (no message decoding):\n# protocol = \"tcp\"\n"
    }

    /// The capability's unique name, which is also its subcommand.
    pub fn name(&self) -> (r: String)
        ensures
            r@ == "k8s_native_port_forward"@,
    {
        String::from_str("k8s_native_port_forward")
    }

    /// The capability's version.
    pub fn version(&self) -> (r: String)
        ensures
            r@ == "0.1.0"@,
    {
        String::from_str("0.1.0")
    }

    /// The capability's one-line description.
    pub fn description(&self) -> (r: String)
        ensures
            r@ == "Native Kubernetes port forwarding with protocol-aware message logging"@,
    {
        String::from_str("Native Kubernetes port forwarding with protocol-aware message logging")
    }

    /// The capability's descriptor: name, version, description, and the six
    /// options of its argument schema, with the protocol option restricted
    /// to tcp, http and postgres.
    pub fn descriptor(&self) -> (d: CapabilityDescriptor)
        ensures
            d.name@ == "k8s_native_port_forward"@,
            d.version@ == "0.1.0"@,
            d.description@
                == "Native Kubernetes port forwarding with protocol-aware message logging"@,
            d.args@.len() == 6,
            d.args@[0].name@ == "pod"@ && d.args@[0].short == Some('p') && d.args@[0].kind is Text,
            d.args@[1].name@ == "selector"@ && d.args@[1].short == Some('s')
                && d.args@[1].kind is Text,
            d.args@[2].name@ == "namespace"@ && d.args@[2].short == Some('n')
                && d.args@[2].kind is Text,
            d.args@[3].name@ == "local-port"@ && d.args@[3].short == Some('l')
                && d.args@[3].kind is Number,
            d.args@[4].name@ == "remote-port"@ && d.args@[4].short == Some('r')
                && d.args@[4].kind is Number,
            d.args@[5].name@ == "protocol"@ && d.args@[5].short is None
                && (d.args@[5].kind matches ArgKind::Choice(vs) && vs@.len() == 3 && vs@[0]@
                == "tcp"@ && vs@[1]@ == "http"@ && vs@[2]@ == "postgres"@),
            forall|i: int| 0 <= i < 6 ==> !(#[trigger] d.args@[i]).required,
    {
        let mut args: Vec<ArgSpec> = Vec::new();
        args.push(
            ArgSpec {
                name: String::from_str("pod"),
                short: Some('p'),
                value_name: Some(String::from_str("POD_NAME")),
                help: String::from_str("Override pod name from config file"),
                kind: ArgKind::Text,
                required: false,
            },
        );
        args.push(
            ArgSpec {
                name: String::from_str("selector"),
                short: Some('s'),
                value_name: Some(String::from_str("SELECTOR")),
                help: String::from_str(
                    "Override pod selector from config file (e.g., 'app=nginx,version=v1')",
                ),
                kind: ArgKind::Text,
                required: false,
            },
        );
        args.push(
            ArgSpec {
                name: String::from_str("namespace"),
                short: Some('n'),
                value_name: Some(String::from_str("NAMESPACE")),
                help: String::from_str("Override namespace from config file"),
                kind: ArgKind::Text,
                required: false,
            },
        );
        args.push(
            ArgSpec {
                name: String::from_str("local-port"),
                short: Some('l'),
                value_name: Some(String::from_str("PORT")),
                help: String::from_str("Override local port from config file"),
                kind: ArgKind::Number,
                required: false,
            },
        );
        args.push(
            ArgSpec {
                name: String::from_str("remote-port"),
                short: Some('r'),
                value_name: Some(String::from_str("PORT")),
                help: String::from_str("Override remote port from config file"),
                kind: ArgKind::Number,
                required: false,
            },
        );
        let mut choices: Vec<String> = Vec::new();
        choices.push(String::from_str("tcp"));
        choices.push(String::from_str("http"));
        choices.push(String::from_str("postgres"));
        args.push(
            ArgSpec {
                name: String::from_str("protocol"),
                short: None,
                value_name: Some(String::from_str("PROTOCOL")),
                help: String::from_str("Protocol for message decoding: tcp, http, postgres"),
                kind: ArgKind::Choice(choices),
                required: false,
            },
        );
        CapabilityDescriptor {
            name: self.name(),
            version: self.version(),
            description: self.description(),
            args,
        }
    }
}

} // verus!
