//! Configuration: where scenarios live, where results go, and how the
//! device is reached.
//!
//! The file itself is read and decoded by the surrounding program; the
//! defaulting and path-resolution rules on the decoded fields are this
//! module's verified business.

use vstd::prelude::*;

verus! {

/// How the device is reached, chosen once at startup.
#[derive(Debug, PartialEq)]
pub enum ConnectionType {
    Usb { port: String, baud_rate: u32 },
    Tcp { address: String, port: u16 },
}

/// The plain shape of a configuration file, with every optional field
/// still optional.
#[derive(Debug)]
pub struct RawConfig {
    pub scenarios_location: Option<String>,
    pub results_location: Option<String>,
    pub connection: ConnectionType,
    pub scenarios: Vec<String>,
}

/// A processed configuration: scenario and results directories, the
/// connection descriptor, and the scenario files to replay, resolved
/// relative to the scenarios directory.
#[derive(Debug, PartialEq)]
pub struct Config {
    pub scenarios_location: String,
    pub results_location: String,
    pub connection: ConnectionType,
    pub scenarios: Vec<String>,
}

/// A file name resolved against a directory: an absolute name stands
/// alone, otherwise it is appended behind exactly one separator.
pub open spec fn spec_join_path(base: Seq<char>, name: Seq<char>) -> Seq<char> {
    if name.len() > 0 && name[0] == '/' {
        name
    } else if base.len() == 0 {
        name
    } else if base[base.len() - 1] == '/' {
        base + name
    } else {
        base + seq!['/'] + name
    }
}

/// Exec mirror of [`spec_join_path`].
fn join_path(base: &str, name: &str) -> (r: String)
    ensures
        r@ == spec_join_path(base@, name@),
{
    if name.unicode_len() > 0 && name.get_char(0) == '/' {
        return name.to_owned();
    }
    let base_len = base.unicode_len();
    if base_len == 0 {
        return name.to_owned();
    }
    let mut joined = base.to_owned();
    if base.get_char(base_len - 1) != '/' {
        joined.append("/");
        proof {
            reveal_strlit("/");
            assert(base@ + "/"@ =~= base@ + seq!['/']);
        }
    }
    joined.append(name);
    joined
}

/// The directory scenarios are read from: as configured, else the current
/// directory.
pub open spec fn spec_scenarios_location(raw_location: Option<Seq<char>>) -> Seq<char> {
    match raw_location {
        Some(l) => l,
        None => "."@,
    }
}

impl Config {
    /// Applies the defaulting rules to a decoded configuration: the
    /// scenarios directory defaults to the current directory, the results
    /// directory defaults to the scenarios directory, and each scenario
    /// file name is resolved against the scenarios directory.
    pub fn new(raw: RawConfig) -> (r: Config)
        ensures
            r.scenarios_location@ == spec_scenarios_location(
                match raw.scenarios_location {
                    Some(l) => Some(l@),
                    None => None,
                },
            ),
            r.results_location@ == match raw.results_location {
                Some(l) => l@,
                None => r.scenarios_location@,
            },
            r.connection == raw.connection,
            r.scenarios@.len() == raw.scenarios@.len(),
            forall|i: int|
                0 <= i < raw.scenarios@.len() ==> r.scenarios@[i]@ == spec_join_path(
                    r.scenarios_location@,
                    raw.scenarios@[i]@,
                ),
    {
        let RawConfig { scenarios_location, results_location, connection, scenarios } = raw;
        let location = match scenarios_location {
            Some(l) => l,
            None => {
                let dot = ".";
                dot.to_owned()
            },
        };
        let results = match results_location {
            Some(l) => l,
            None => location.clone(),
        };
        let ghost raw_scenarios = scenarios@;
        let mut resolved: Vec<String> = Vec::new();
        let mut remaining = scenarios;
        #[verifier::loop_isolation(false)]
        while remaining.len() > 0
            invariant
                resolved@.len() + remaining@.len() == raw_scenarios.len(),
                forall|i: int|
                    0 <= i < remaining@.len() ==> remaining@[i] == raw_scenarios[resolved@.len()
                        + i],
                forall|i: int|
                    0 <= i < resolved@.len() ==> resolved@[i]@ == spec_join_path(
                        location@,
                        raw_scenarios[i]@,
                    ),
            decreases remaining@.len(),
        {
            let name = remaining.remove(0);
            let joined = join_path(location.as_str(), name.as_str());
            resolved.push(joined);
        }
        Config {
            scenarios_location: location,
            results_location: results,
            connection,
            scenarios: resolved,
        }
    }
}

} // verus!
