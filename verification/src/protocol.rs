//! The protocols the relay can classify, and how a protocol name from a
//! configuration file or a command-line override is read: case-insensitively,
//! with every unrecognized value resolving to plain TCP rather than an error.

use vstd::prelude::*;
use vstd::string::StringExecFns;

verus! {

/// A traffic protocol the classifier understands.
#[derive(Debug, Clone, Copy, PartialEq, Eq, Structural)]
pub enum Protocol {
    Tcp,
    Http,
    Postgres,
}

/// The lowercase form of `s`, as `str::to_lowercase` computes it.
pub uninterp spec fn lower_of(s: Seq<char>) -> Seq<char>;

/// Relies on `str::to_lowercase`: the result is a function of the
/// characters alone.
#[verifier::external_body]
fn to_lowercase_string(s: &str) -> (r: String)
    ensures
        r@ == lower_of(s@),
{
    s.to_lowercase()
}

/// The protocol a lowercased name selects; anything unrecognized is TCP.
pub open spec fn spec_protocol_for_lowered(t: Seq<char>) -> Protocol {
    if t == "http"@ {
        Protocol::Http
    } else if t == "postgres"@ || t == "postgresql"@ {
        Protocol::Postgres
    } else {
        Protocol::Tcp
    }
}

/// The protocol a name selects, compared case-insensitively.
pub open spec fn spec_protocol_of(s: Seq<char>) -> Protocol {
    spec_protocol_for_lowered(lower_of(s))
}

impl Protocol {
    /// Reads a protocol name; unrecognized values resolve to TCP.
    pub fn parse(s: &str) -> (r: Protocol)
        ensures
            r == spec_protocol_of(s@),
    {
        let low = to_lowercase_string(s);
        if low == String::from_str("http") {
            Protocol::Http
        } else if low == String::from_str("postgres") || low == String::from_str("postgresql") {
            Protocol::Postgres
        } else {
            Protocol::Tcp
        }
    }
}

impl From<&str> for Protocol {
    /// Reads a protocol name; unrecognized values resolve to TCP.
    fn from(s: &str) -> (r: Protocol) {
        Protocol::parse(s)
    }
}

impl vstd::std_specs::convert::FromSpecImpl<&str> for Protocol {
    open spec fn obeys_from_spec() -> bool {
        true
    }

    open spec fn from_spec(s: &str) -> Protocol {
        spec_protocol_of(s@)
    }
}

/// The protocol the relay runs with: a command-line override wins over the
/// configured name, and with neither present the protocol is TCP.
pub open spec fn spec_effective_protocol(
    override_name: Option<Seq<char>>,
    config_name: Option<Seq<char>>,
) -> Protocol {
    match override_name {
        Some(o) => spec_protocol_of(o),
        None => match config_name {
            Some(c) => spec_protocol_of(c),
            None => Protocol::Tcp,
        },
    }
}

/// Picks the protocol from an override and a configured name.
pub fn effective_protocol(override_name: &Option<String>, config_name: &Option<String>) -> (r:
    Protocol)
    ensures
        r == spec_effective_protocol(
            match override_name {
                Some(o) => Some(o@),
                None => None,
            },
            match config_name {
                Some(c) => Some(c@),
                None => None,
            },
        ),
{
    match override_name {
        Some(o) => Protocol::parse(o.as_str()),
        None => match config_name {
            Some(c) => Protocol::parse(c.as_str()),
            None => Protocol::Tcp,
        },
    }
}

} // verus!
