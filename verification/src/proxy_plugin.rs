//! An early, superseded proxy capability kept for its CLI surface: it only
//! parses a port, a target and a verbosity flag and reports what it was
//! configured with.  Logging setup and process exit are the host program's
//! work.

use crate::host::{ArgKind, ArgSpec, CapabilityDescriptor};
use vstd::prelude::*;
use vstd::string::StringExecFns;

verus! {

/// The demonstration proxy capability.
pub struct ProxyPlugin;

impl ProxyPlugin {
    /// The capability's unique name, which is also its subcommand.
    pub fn name(&self) -> (r: String)
        ensures
            r@ == "ProxyPlugin"@,
    {
        String::from_str("ProxyPlugin")
    }

    /// The capability's version.
    pub fn version(&self) -> (r: String)
        ensures
            r@ == "0.1.0"@,
    {
        String::from_str("0.1.0")
    }

    /// The capability's one-line description.
    pub fn description(&self) -> (r: String)
        ensures
            r@ == "A command line proxy tool"@,
    {
        String::from_str("A command line proxy tool")
    }

    /// The capability's descriptor: a port with a default, a required
    /// target, and a verbosity flag.
    pub fn descriptor(&self) -> (d: CapabilityDescriptor)
        ensures
            d.name@ == "ProxyPlugin"@,
            d.version@ == "0.1.0"@,
            d.description@ == "A command line proxy tool"@,
            d.args@.len() == 3,
            d.args@[0].name@ == "port"@ && d.args@[0].short == Some('p')
                && d.args@[0].kind is Text && !d.args@[0].required,
            d.args@[1].name@ == "target"@ && d.args@[1].short == Some('t')
                && d.args@[1].kind is Text && d.args@[1].required,
            d.args@[2].name@ == "verbose"@ && d.args@[2].short == Some('v')
                && d.args@[2].kind is Flag && !d.args@[2].required,
    {
        let mut args: Vec<ArgSpec> = Vec::new();
        args.push(
            ArgSpec {
                name: String::from_str("port"),
                short: Some('p'),
                value_name: Some(String::from_str("PORT")),
                help: String::from_str("Sets the port to listen on"),
                kind: ArgKind::Text,
                required: false,
            },
        );
        args.push(
            ArgSpec {
                name: String::from_str("target"),
                short: Some('t'),
                value_name: Some(String::from_str("TARGET")),
                help: String::from_str("Sets the target URL to proxy to"),
                kind: ArgKind::Text,
                required: true,
            },
        );
        args.push(
            ArgSpec {
                name: String::from_str("verbose"),
                short: Some('v'),
                value_name: None,
                help: String::from_str("Enable verbose output"),
                kind: ArgKind::Flag,
                required: false,
            },
        );
        CapabilityDescriptor {
            name: self.name(),
            version: self.version(),
            description: self.description(),
            args,
        }
    }

    /// The default listening port when none is given.
    pub fn default_port(&self) -> (r: String)
        ensures
            r@ == "8080"@,
    {
        String::from_str("8080")
    }
}

} // verus!
