//! The kubectl-subprocess port-forward capability: an alternative tunnel
//! transport that drives an external `kubectl port-forward` process instead
//! of the cluster API.  Spawning and waiting on the process is the host
//! program's work; choosing the forward, resolving a labelled target from a
//! listing, and building the exact argument vectors happen here.

use crate::host::{ArgKind, ArgSpec, CapabilityDescriptor};
use crate::strutil::{spec_contains, spec_dec, spec_split_lines, split_lines, str_chars, str_contains, u64_dec};
use vstd::prelude::*;
use vstd::string::StringExecFns;

verus! {

/// The capability's configuration: a list of forwards to choose from.
pub struct ForwardConfig {
    pub forward: Vec<PortForward>,
}

/// One configured forward: a named resource or a label query, the resource
/// kind, and the two ports.
pub struct PortForward {
    pub name: Option<String>,
    pub labels: Option<String>,
    pub namespace: String,
    /// The resource kind: `pod` or `service`.
    pub kind: String,
    pub local_port: u16,
    pub remote_port: u16,
}

/// Whether a forward's name is exactly `n`.
pub open spec fn forward_named(f: PortForward, n: Seq<char>) -> bool {
    f.name matches Some(m) && m@ == n
}

/// Whether a forward's label query contains `n` as a substring.
pub open spec fn forward_labelled(f: PortForward, n: Seq<char>) -> bool {
    f.labels matches Some(l) && spec_contains(l@, n)
}

/// The forwards named exactly `n`, in configuration order.
pub open spec fn named_forwards(fs: Seq<PortForward>, n: Seq<char>) -> Seq<PortForward>
    decreases fs.len(),
{
    if fs.len() == 0 {
        Seq::empty()
    } else {
        named_forwards(fs.drop_last(), n) + (if forward_named(fs.last(), n) {
            seq![fs.last()]
        } else {
            Seq::empty()
        })
    }
}

/// The forwards whose labels contain `n`, in configuration order.
pub open spec fn labelled_forwards(fs: Seq<PortForward>, n: Seq<char>) -> Seq<PortForward>
    decreases fs.len(),
{
    if fs.len() == 0 {
        Seq::empty()
    } else {
        labelled_forwards(fs.drop_last(), n) + (if forward_labelled(fs.last(), n) {
            seq![fs.last()]
        } else {
            Seq::empty()
        })
    }
}

/// When nothing is named `n`, nothing was set aside: what is left is the
/// whole list.
proof fn lemma_no_named_rest(fs: Seq<PortForward>, n: Seq<char>)
    requires
        named_forwards(fs, n).len() == 0,
    ensures
        unnamed_forwards(fs, n) == fs,
    decreases fs.len(),
{
    if fs.len() > 0 {
        lemma_no_named_rest(fs.drop_last(), n);
        assert(unnamed_forwards(fs, n) =~= fs);
    }
}

/// The forwards not named exactly `n`, in configuration order.
pub open spec fn unnamed_forwards(fs: Seq<PortForward>, n: Seq<char>) -> Seq<PortForward>
    decreases fs.len(),
{
    if fs.len() == 0 {
        Seq::empty()
    } else {
        unnamed_forwards(fs.drop_last(), n) + (if forward_named(fs.last(), n) {
            Seq::empty()
        } else {
            seq![fs.last()]
        })
    }
}

/// Picks the forwards a `--name` filter selects: exact name matches when
/// there are any, otherwise the forwards whose label query contains the
/// filter as a substring; with no filter, every configured forward.
pub fn filter_forwards(forwards: Vec<PortForward>, filter: &Option<String>) -> (r: Vec<
    PortForward,
>)
    ensures
        match filter {
            None => r@ == forwards@,
            Some(n) => {
                if named_forwards(forwards@, n@).len() > 0 {
                    r@ == named_forwards(forwards@, n@)
                } else {
                    r@ == labelled_forwards(forwards@, n@)
                }
            },
        },
{
    let n = match filter {
        None => {
            return forwards;
        },
        Some(n) => n,
    };
    let ghost all = forwards@;
    let mut forwards = forwards;
    let mut named: Vec<PortForward> = Vec::new();
    let mut rest: Vec<PortForward> = Vec::new();
    let total = forwards.len();
    let mut i: usize = 0;
    assert(forwards@ =~= all.skip(0));
    assert(named_forwards(all.take(0), n@) =~= Seq::<PortForward>::empty());
    assert(unnamed_forwards(all.take(0), n@) =~= Seq::<PortForward>::empty());
    while i < total
        invariant
            i <= total,
            total == all.len(),
            forwards@ == all.skip(i as int),
            named@ == named_forwards(all.take(i as int), n@),
            rest@ == unnamed_forwards(all.take(i as int), n@),
        decreases total - i,
    {
        proof {
            assert(all.take(i + 1).drop_last() =~= all.take(i as int));
            assert(all.take(i + 1).last() == all[i as int]);
        }
        let f = forwards.remove(0);
        proof {
            assert(f == all[i as int]);
            assert(forwards@ =~= all.skip(i + 1));
        }
        let is_named = match &f.name {
            Some(m) => m.eq(n),
            None => false,
        };
        if is_named {
            named.push(f);
        } else {
            rest.push(f);
        }
        i = i + 1;
    }
    assert(all.take(total as int) =~= all);
    if named.len() > 0 {
        return named;
    }
    proof {
        lemma_no_named_rest(all, n@);
    }
    let ghost remaining = rest@;
    let total2 = rest.len();
    let mut rest = rest;
    let mut labelled: Vec<PortForward> = Vec::new();
    let mut k: usize = 0;
    assert(rest@ =~= remaining.skip(0));
    assert(labelled_forwards(remaining.take(0), n@) =~= Seq::<PortForward>::empty());
    while k < total2
        invariant
            k <= total2,
            total2 == remaining.len(),
            rest@ == remaining.skip(k as int),
            labelled@ == labelled_forwards(remaining.take(k as int), n@),
        decreases total2 - k,
    {
        proof {
            assert(remaining.take(k + 1).drop_last() =~= remaining.take(k as int));
            assert(remaining.take(k + 1).last() == remaining[k as int]);
        }
        let f = rest.remove(0);
        proof {
            assert(f == remaining[k as int]);
            assert(rest@ =~= remaining.skip(k + 1));
        }
        let is_labelled = match &f.labels {
            Some(l) => str_contains(l.as_str(), n.as_str()),
            None => false,
        };
        if is_labelled {
            labelled.push(f);
        }
        k = k + 1;
    }
    assert(remaining.take(total2 as int) =~= remaining);
    labelled
}

/// What can stop a forward before any process is spawned.
#[derive(Debug)]
pub enum KubectlPlanError {
    /// The configured resource kind is neither `pod` nor `service`.
    UnknownKind(String),
    /// The forward names neither a resource nor a label query.
    NoTarget,
}

/// How to reach the target: spawn directly at a known resource, or list
/// matching resources first.
pub enum KubectlStep {
    /// The target is known: `kind/name`.
    Direct { target: String },
    /// List matching resources with these arguments, then settle on one.
    NeedListing { list_args: Vec<String> },
}

/// The command-line kind for a configured resource type: `pod` stays `pod`,
/// `service` becomes `svc`, anything else is unknown.
pub fn kind_for_type(t: &String) -> (r: Option<String>)
    ensures
        match r {
            Some(k) => (t@ == "pod"@ && k@ == "pod"@) || (t@ == "service"@ && k@ == "svc"@),
            None => t@ != "pod"@ && t@ != "service"@,
        },
{
    if t.eq(&String::from_str("pod")) {
        Some(String::from_str("pod"))
    } else if t.eq(&String::from_str("service")) {
        Some(String::from_str("svc"))
    } else {
        None
    }
}

/// The `local:remote` port mapping argument.
pub fn port_map(local_port: u16, remote_port: u16) -> (r: String)
    ensures
        r@ == spec_dec(local_port as nat) + ":"@ + spec_dec(remote_port as nat),
{
    let mut r = u64_dec(local_port as u64);
    r.append(":");
    let remote = u64_dec(remote_port as u64);
    r.append(remote.as_str());
    r
}

/// The listing arguments: name-only output of the resources of `kind`
/// matching `labels` in `namespace`.
pub fn kubectl_list_args(kind: &String, labels: &String, namespace: &String) -> (r: Vec<String>)
    ensures
        r@.len() == 9,
        r@[0]@ == "get"@,
        r@[1]@ == kind@,
        r@[2]@ == "-l"@,
        r@[3]@ == labels@,
        r@[4]@ == "-n"@,
        r@[5]@ == namespace@,
        r@[6]@ == "--no-headers"@,
        r@[7]@ == "-o"@,
        r@[8]@ == "name"@,
{
    let mut r: Vec<String> = Vec::new();
    r.push(String::from_str("get"));
    r.push(kind.clone());
    r.push(String::from_str("-l"));
    r.push(labels.clone());
    r.push(String::from_str("-n"));
    r.push(namespace.clone());
    r.push(String::from_str("--no-headers"));
    r.push(String::from_str("-o"));
    r.push(String::from_str("name"));
    r
}

/// The forwarding arguments around a settled target.
pub fn kubectl_forward_args(
    target: &String,
    local_port: u16,
    remote_port: u16,
    namespace: &String,
) -> (r: Vec<String>)
    ensures
        r@.len() == 5,
        r@[0]@ == "port-forward"@,
        r@[1]@ == target@,
        r@[2]@ == spec_dec(local_port as nat) + ":"@ + spec_dec(remote_port as nat),
        r@[3]@ == "-n"@,
        r@[4]@ == namespace@,
{
    let mut r: Vec<String> = Vec::new();
    r.push(String::from_str("port-forward"));
    r.push(target.clone());
    r.push(port_map(local_port, remote_port));
    r.push(String::from_str("-n"));
    r.push(namespace.clone());
    r
}

/// Decides how one configured forward reaches its target: an explicit name
/// gives a direct `kind/name` target; a label query needs a listing first;
/// a forward with neither, or with an unknown kind, goes nowhere.
pub fn kubectl_plan(fwd: &PortForward) -> (r: Result<KubectlStep, KubectlPlanError>)
    ensures
        match r {
            Ok(step) => (fwd.kind@ == "pod"@ || fwd.kind@ == "service"@) && {
                let kind = if fwd.kind@ == "pod"@ {
                    "pod"@
                } else {
                    "svc"@
                };
                match step {
                    KubectlStep::Direct { target } => {
                        &&& fwd.labels is None
                        &&& fwd.name matches Some(nm) && target@ == kind + "/"@ + nm@
                    },
                    KubectlStep::NeedListing { list_args } => {
                        &&& fwd.labels matches Some(l)
                        &&& list_args@.len() == 9
                        &&& list_args@[0]@ == "get"@
                        &&& list_args@[1]@ == kind
                        &&& list_args@[2]@ == "-l"@
                        &&& list_args@[3]@ == l@
                        &&& list_args@[4]@ == "-n"@
                        &&& list_args@[5]@ == fwd.namespace@
                        &&& list_args@[6]@ == "--no-headers"@
                        &&& list_args@[7]@ == "-o"@
                        &&& list_args@[8]@ == "name"@
                    },
                }
            },
            Err(e) => match e {
                KubectlPlanError::UnknownKind(k) => k@ == fwd.kind@ && fwd.kind@ != "pod"@
                    && fwd.kind@ != "service"@,
                KubectlPlanError::NoTarget => (fwd.kind@ == "pod"@ || fwd.kind@ == "service"@)
                    && fwd.name is None && fwd.labels is None,
            },
        },
{
    proof {
        reveal_strlit("pod");
        reveal_strlit("service");
    }
    let kind = match kind_for_type(&fwd.kind) {
        Some(k) => k,
        None => {
            return Err(KubectlPlanError::UnknownKind(fwd.kind.clone()));
        },
    };
    match (&fwd.name, &fwd.labels) {
        (Some(name), None) => {
            let mut target = kind;
            target.append("/");
            target.append(name.as_str());
            Ok(KubectlStep::Direct { target })
        },
        (_, Some(labels)) => Ok(
            KubectlStep::NeedListing {
                list_args: kubectl_list_args(&kind, labels, &fwd.namespace),
            },
        ),
        (None, None) => Err(KubectlPlanError::NoTarget),
    }
}

/// The non-empty lines of a listing's output, in output order.
pub open spec fn nonempty_of(lines: Seq<Seq<char>>) -> Seq<Seq<char>>
    decreases lines.len(),
{
    if lines.len() == 0 {
        Seq::empty()
    } else {
        nonempty_of(lines.drop_last()) + (if lines.last().len() > 0 {
            seq![lines.last()]
        } else {
            Seq::empty()
        })
    }
}

/// Settles a listing's output on a resource: its non-empty lines are the
/// matches; none is a failed forward; otherwise the first is used and they
/// are all reported.
pub fn resolve_listing(output: &str) -> (r: Option<(String, Vec<String>)>)
    ensures
        ({
            let matches = nonempty_of(spec_split_lines(output@));
            match r {
                Some((chosen, all)) => {
                    &&& matches.len() > 0
                    &&& chosen@ == matches[0]
                    &&& all@.len() == matches.len()
                    &&& forall|k: int| 0 <= k < all@.len() ==> all@[k]@ == #[trigger] matches[k]
                },
                None => matches.len() == 0,
            }
        }),
{
    let chars = str_chars(output);
    let lines = split_lines(&chars);
    let ghost lviews = spec_split_lines(output@);
    let mut matches: Vec<String> = Vec::new();
    let total = lines.len();
    let mut i: usize = 0;
    assert(nonempty_of(lviews.take(0)) =~= Seq::<Seq<char>>::empty());
    while i < total
        invariant
            i <= total,
            total == lines@.len() == lviews.len(),
            forall|k: int| 0 <= k < total ==> lines@[k]@ == #[trigger] lviews[k],
            matches@.len() == nonempty_of(lviews.take(i as int)).len(),
            forall|k: int|
                0 <= k < matches@.len() ==> matches@[k]@ == #[trigger] nonempty_of(
                    lviews.take(i as int),
                )[k],
        decreases total - i,
    {
        proof {
            assert(lviews.take(i + 1).drop_last() =~= lviews.take(i as int));
            assert(lviews.take(i + 1).last() == lviews[i as int]);
        }
        let line = &lines[i];
        if !line.as_str().is_empty() {
            matches.push(line.clone());
        }
        i = i + 1;
    }
    assert(lviews.take(total as int) =~= lviews);
    if matches.len() == 0 {
        return None;
    }
    let chosen = matches[0].clone();
    Some((chosen, matches))
}

/// The kubectl-subprocess capability's descriptor side.
pub struct ProxyPlugin;

impl ProxyPlugin {
    /// A sample configuration file.  The text is illustrative only.
    pub fn sample_config() -> &'static str {
        "[[forward]]\nname = \"my-service\"\nnamespace = \"default\"\ntype = \"service\"\nlocal_port = 8080\nremote_port = 80\n\n[[forward]]\nlabels = \"app=nginx,version=v1\"\nnamespace = \"default\"\ntype = \"pod\"\nlocal_port = 9090\nremote_port = 9000\n\n[[forward]]\nname = \"my-pod\"\nnamespace = \"default\"\ntype = \"pod\"\nlocal_port = 3000\nremote_port = 3000\n"
    }

    /// The capability's unique name, which is also its subcommand.
    pub fn name(&self) -> (r: String)
        ensures
            r@ == "k8s_port_forward"@,
    {
        String::from_str("k8s_port_forward")
    }

    /// The capability's version.
    pub fn version(&self) -> (r: String)
        ensures
            r@ == "0.1.0"@,
    {
        String::from_str("0.1.0")
    }

    /// The capability's one-line description.
    pub fn description(&self) -> (r: String)
        ensures
            r@ == "Kubernetes port forwarding with name and label support"@,
    {
        String::from_str("Kubernetes port forwarding with name and label support")
    }

    /// The capability's descriptor: one optional option selecting a forward
    /// from the configuration file by name.
    pub fn descriptor(&self) -> (d: CapabilityDescriptor)
        ensures
            d.name@ == "k8s_port_forward"@,
            d.version@ == "0.1.0"@,
            d.description@ == "Kubernetes port forwarding with name and label support"@,
            d.args@.len() == 1,
            d.args@[0].name@ == "name"@ && d.args@[0].short is None && d.args@[0].kind is Text
                && !d.args@[0].required,
    {
        let mut args: Vec<ArgSpec> = Vec::new();
        args.push(
            ArgSpec {
                name: String::from_str("name"),
                short: None,
                value_name: Some(String::from_str("NAME")),
                help: String::from_str(
                    "Name of the port-forward config to use (from config file)",
                ),
                kind: ArgKind::Text,
                required: false,
            },
        );
        CapabilityDescriptor {
            name: self.name(),
            version: self.version(),
            description: self.description(),
            args,
        }
    }
}

} // verus!
