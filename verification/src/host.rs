//! The plugin host's verified core: capability descriptors, the registry
//! that loads them, CLI composition, and dispatch.
//!
//! A module that fails to load is skipped and never prevents the others
//! from loading; two capabilities with one name are a fatal startup error,
//! because dispatch would be ambiguous.  The host program around the
//! library does the dynamic loading itself and hands the registry one
//! load outcome per module it tried.

use vstd::prelude::*;
use vstd::string::StringExecFns;
use crate::strutil::{chars_string, str_chars};

verus! {

/// The kind of value one option of a capability's argument schema takes.
pub enum ArgKind {
    /// A free-form string value.
    Text,
    /// A numeric value; the host picks the concrete parser.
    Number,
    /// A flag without a value.
    Flag,
    /// One value out of a fixed set.
    Choice(Vec<String>),
}

/// One named option of a capability's argument schema.
pub struct ArgSpec {
    pub name: String,
    pub short: Option<char>,
    pub value_name: Option<String>,
    pub help: String,
    pub kind: ArgKind,
    pub required: bool,
}

/// What a capability declares about itself: its unique name, version,
/// description, and argument schema.  Immutable once produced.
pub struct CapabilityDescriptor {
    pub name: String,
    pub version: String,
    pub description: String,
    pub args: Vec<ArgSpec>,
}

/// What executing a capability came to.
pub enum Outcome {
    Success,
    Failure(String),
    RequestExit(i32),
}

/// What loading one module came to: a capability, or a reason it was
/// skipped (the file would not open, or it exports no factory symbol).
pub enum LoadOutcome {
    Loaded(CapabilityDescriptor),
    Failed(String),
}

/// A fatal startup error of the host.
#[derive(Debug)]
pub enum HostError {
    /// Two loaded capabilities declared this name.
    DuplicateCapability(String),
}

/// Whether every capability name occurs once.
pub open spec fn unique_names(caps: Seq<CapabilityDescriptor>) -> bool {
    forall|i: int, j: int| 0 <= i < j < caps.len() ==> caps[i].name@ != caps[j].name@
}

/// Whether some capability in `caps` is named `n`.
pub open spec fn has_name(caps: Seq<CapabilityDescriptor>, n: Seq<char>) -> bool {
    exists|i: int| 0 <= i < caps.len() && caps[i].name@ == n
}

/// The capabilities that were actually loaded, in load order; failed
/// modules contribute nothing.
pub open spec fn loaded_caps(outcomes: Seq<LoadOutcome>) -> Seq<CapabilityDescriptor>
    decreases outcomes.len(),
{
    if outcomes.len() == 0 {
        Seq::empty()
    } else {
        loaded_caps(outcomes.drop_last()) + (match outcomes.last() {
            LoadOutcome::Loaded(d) => seq![d],
            LoadOutcome::Failed(_) => Seq::empty(),
        })
    }
}

/// A module that fails to load never prevents the other modules from
/// loading: the loaded capabilities are the same as if the failed module
/// had not been offered at all.
pub proof fn lemma_failed_module_ignored(outcomes: Seq<LoadOutcome>, k: int)
    requires
        0 <= k < outcomes.len(),
        outcomes[k] is Failed,
    ensures
        loaded_caps(outcomes) == loaded_caps(outcomes.remove(k)),
    decreases outcomes.len(),
{
    if k == outcomes.len() - 1 {
        assert(outcomes.remove(k) =~= outcomes.drop_last());
    } else {
        lemma_failed_module_ignored(outcomes.drop_last(), k);
        assert(outcomes.remove(k).drop_last() =~= outcomes.drop_last().remove(k));
        assert(outcomes.remove(k).last() == outcomes.last());
    }
}

/// The capability registry: every successfully loaded capability, retained
/// together for the whole run, with names unique.
pub struct Registry {
    caps: Vec<CapabilityDescriptor>,
}

/// One row of the capability listing: name, version, and the description
/// shortened for the table.
pub struct PluginListRow {
    pub name: String,
    pub version: String,
    pub description: String,
}

/// A description shortened for the listing table: more than 32 characters
/// become the first 29 and a trailing ellipsis.
pub open spec fn spec_truncate_description(d: Seq<char>) -> Seq<char> {
    if d.len() > 32 {
        d.take(29) + "..."@
    } else {
        d
    }
}

/// Shortens a description for the listing table.
pub fn truncate_description(d: &String) -> (r: String)
    ensures
        r@ == spec_truncate_description(d@),
{
    let chars = str_chars(d.as_str());
    if chars.len() > 32 {
        let mut t = chars_string(&chars, 0, 29);
        assert(t@ =~= d@.take(29));
        t.append("...");
        t
    } else {
        d.clone()
    }
}

/// Where the host sends the parsed process arguments.
pub enum DispatchDecision {
    /// Run the capability at this registry index.
    Run(usize),
    /// No capability was selected: print usage and exit non-zero, with no
    /// error text.
    Usage,
}

impl Registry {
    /// The capabilities held, in load order.
    pub closed spec fn capabilities(self) -> Seq<CapabilityDescriptor> {
        self.caps@
    }

    /// The registry invariant: capability names are unique within one run.
    pub open spec fn wf(self) -> bool {
        unique_names(self.capabilities())
    }

    /// An empty registry.
    pub fn new() -> (r: Registry)
        ensures
            r.wf(),
            r.capabilities().len() == 0,
    {
        Registry { caps: Vec::new() }
    }

    /// Whether a capability named `n` is already registered.
    fn contains_name(&self, n: &String) -> (r: bool)
        ensures
            r == has_name(self.capabilities(), n@),
    {
        let mut i: usize = 0;
        while i < self.caps.len()
            invariant
                i <= self.caps@.len(),
                forall|j: int| 0 <= j < i ==> self.caps@[j].name@ != n@,
            decreases self.caps@.len() - i,
        {
            if self.caps[i].name.eq(n) {
                return true;
            }
            i = i + 1;
        }
        false
    }

    /// Registers one capability.  A name collision is a fatal error: the
    /// registry is unchanged and neither claimant is dispatched over the
    /// other.
    pub fn register(&mut self, d: CapabilityDescriptor) -> (r: Result<(), HostError>)
        requires
            old(self).wf(),
        ensures
            final(self).wf(),
            match r {
                Ok(()) => !has_name(old(self).capabilities(), d.name@)
                    && final(self).capabilities() == old(self).capabilities().push(d),
                Err(e) => {
                    &&& e matches HostError::DuplicateCapability(n) && n@ == d.name@
                    &&& has_name(old(self).capabilities(), d.name@)
                    &&& final(self).capabilities() == old(self).capabilities()
                },
            },
    {
        if self.contains_name(&d.name) {
            Err(HostError::DuplicateCapability(d.name))
        } else {
            let ghost before = self.caps@;
            self.caps.push(d);
            assert forall|i: int, j: int|
                0 <= i < j < self.caps@.len() implies self.caps@[i].name@
                != self.caps@[j].name@ by {
                if j < before.len() {
                } else {
                    assert(self.caps@[j].name@ == d.name@);
                    assert(!has_name(before, d.name@));
                }
            }
            Ok(())
        }
    }

    /// Builds the registry from one load outcome per module: failed modules
    /// are skipped, and a duplicate capability name is fatal before any
    /// dispatch.
    #[verifier::loop_isolation(false)]
    pub fn build(outcomes: Vec<LoadOutcome>) -> (r: Result<Registry, HostError>)
        ensures
            match r {
                Ok(reg) => {
                    &&& reg.wf()
                    &&& reg.capabilities() == loaded_caps(outcomes@)
                    &&& unique_names(loaded_caps(outcomes@))
                },
                Err(e) => {
                    &&& e is DuplicateCapability
                    &&& !unique_names(loaded_caps(outcomes@))
                },
            },
    {
        let mut reg = Registry::new();
        let n = outcomes.len();
        let mut outcomes = outcomes;
        let ghost all = outcomes@;
        let mut i: usize = 0;
        assert(loaded_caps(all.take(0)) =~= Seq::<CapabilityDescriptor>::empty());
        assert(outcomes@ =~= all.skip(0));
        while i < n
            invariant
                i <= n,
                n == all.len(),
                outcomes@ == all.skip(i as int),
                reg.wf(),
                reg.capabilities() == loaded_caps(all.take(i as int)),
            decreases n - i,
        {
            let ghost prev = reg.capabilities();
            proof {
                assert(all.take(i + 1).drop_last() =~= all.take(i as int));
                assert(all.take(i + 1).last() == all[i as int]);
            }
            let outcome = outcomes.remove(0);
            proof {
                assert(outcome == all[i as int]);
                assert(outcomes@ =~= all.skip(i + 1));
            }
            match outcome {
                LoadOutcome::Loaded(d) => {
                    let ghost dg = d;
                    match reg.register(d) {
                        Ok(()) => {
                            assert(reg.capabilities() =~= loaded_caps(all.take(i + 1)));
                        },
                        Err(e) => {
                            proof {
                                let p1 = loaded_caps(all.take(i + 1));
                                assert(p1 =~= prev.push(dg));
                                lemma_loaded_caps_prefix(all, i + 1);
                                let whole = loaded_caps(all);
                                assert(p1 =~= whole.subrange(0, p1.len() as int));
                                let k = choose|k: int|
                                    0 <= k < prev.len() && prev[k].name@ == dg.name@;
                                let here = prev.len() as int;
                                assert(whole[k] == p1[k]);
                                assert(whole[here] == p1[here]);
                                assert(whole[k].name@ == whole[here].name@);
                                assert(0 <= k < here < whole.len());
                                assert(!unique_names(whole)) by {
                                    if unique_names(whole) {
                                        assert(whole[k].name@ != whole[here].name@);
                                    }
                                }
                            }
                            return Err(e);
                        },
                    }
                },
                LoadOutcome::Failed(_) => {
                    assert(reg.capabilities() =~= loaded_caps(all.take(i + 1)));
                },
            }
            i = i + 1;
        }
        assert(all.take(n as int) =~= all);
        Ok(reg)
    }

    /// One CLI subcommand name per capability, in registry order.
    pub fn subcommand_names(&self) -> (r: Vec<String>)
        ensures
            r@.len() == self.capabilities().len(),
            forall|i: int| 0 <= i < r@.len() ==> r@[i]@ == self.capabilities()[i].name@,
    {
        let mut names: Vec<String> = Vec::new();
        let mut i: usize = 0;
        while i < self.caps.len()
            invariant
                i <= self.caps@.len(),
                names@.len() == i,
                forall|j: int| 0 <= j < i ==> names@[j]@ == self.caps@[j].name@,
            decreases self.caps@.len() - i,
        {
            names.push(self.caps[i].name.clone());
            i = i + 1;
        }
        names
    }

    /// The capability listing: one row per loaded capability with its
    /// declared version and its description shortened for the table.
    pub fn list_rows(&self) -> (r: Vec<PluginListRow>)
        ensures
            r@.len() == self.capabilities().len(),
            forall|i: int|
                0 <= i < r@.len() ==> {
                    &&& (#[trigger] r@[i]).name@ == self.capabilities()[i].name@
                    &&& r@[i].version@ == self.capabilities()[i].version@
                    &&& r@[i].description@ == spec_truncate_description(
                        self.capabilities()[i].description@,
                    )
                },
    {
        let mut rows: Vec<PluginListRow> = Vec::new();
        let mut i: usize = 0;
        while i < self.caps.len()
            invariant
                i <= self.caps@.len(),
                rows@.len() == i,
                forall|j: int|
                    0 <= j < i ==> {
                        &&& (#[trigger] rows@[j]).name@ == self.caps@[j].name@
                        &&& rows@[j].version@ == self.caps@[j].version@
                        &&& rows@[j].description@ == spec_truncate_description(
                            self.caps@[j].description@,
                        )
                    },
            decreases self.caps@.len() - i,
        {
            let cap = &self.caps[i];
            rows.push(
                PluginListRow {
                    name: cap.name.clone(),
                    version: cap.version.clone(),
                    description: truncate_description(&cap.description),
                },
            );
            i = i + 1;
        }
        rows
    }

    /// Where the parsed arguments go: the first capability whose name is
    /// the chosen subcommand, or usage when none was chosen or none
    /// matches.
    #[verifier::loop_isolation(false)]
    pub fn dispatch(&self, chosen: &Option<String>) -> (r: DispatchDecision)
        ensures
            match chosen {
                None => r is Usage,
                Some(n) => match r {
                    DispatchDecision::Run(i) => i < self.capabilities().len()
                        && self.capabilities()[i as int].name@ == n@ && forall|j: int|
                        0 <= j < i ==> self.capabilities()[j].name@ != n@,
                    DispatchDecision::Usage => !has_name(self.capabilities(), n@),
                },
            },
    {
        match chosen {
            None => DispatchDecision::Usage,
            Some(n) => {
                let mut i: usize = 0;
                while i < self.caps.len()
                    invariant
                        i <= self.caps@.len(),
                        forall|j: int| 0 <= j < i ==> self.caps@[j].name@ != n@,
                    decreases self.caps@.len() - i,
                {
                    if self.caps[i].name.eq(n) {
                        return DispatchDecision::Run(i);
                    }
                    i = i + 1;
                }
                DispatchDecision::Usage
            },
        }
    }
}

/// The composed CLI exposes exactly one subcommand per capability: a
/// sequence with one name per capability, in registry order, holds no name
/// twice, so no two capabilities answer to one subcommand.
pub proof fn lemma_one_subcommand_per_capability(reg: Registry, names: Seq<Seq<char>>)
    requires
        reg.wf(),
        names.len() == reg.capabilities().len(),
        forall|i: int| 0 <= i < names.len() ==> names[i] == reg.capabilities()[i].name@,
    ensures
        forall|i: int, j: int| 0 <= i < j < names.len() ==> names[i] != names[j],
{
}

/// Every prefix of the load outcomes contributes a prefix of the loaded
/// capabilities.
proof fn lemma_loaded_caps_prefix(outcomes: Seq<LoadOutcome>, i: int)
    requires
        0 <= i <= outcomes.len(),
    ensures
        loaded_caps(outcomes.take(i)).is_prefix_of(loaded_caps(outcomes)),
    decreases outcomes.len() - i,
{
    if i == outcomes.len() {
        assert(outcomes.take(i) =~= outcomes);
    } else {
        lemma_loaded_caps_prefix(outcomes, i + 1);
        assert(outcomes.take(i + 1).drop_last() =~= outcomes.take(i));
        assert(loaded_caps(outcomes.take(i)).is_prefix_of(loaded_caps(outcomes.take(i + 1))));
    }
}

} // verus!
