//! The configuration loader. The caller resolves an integration name
//! to its on-disk source and decodes it into a raw [`ConfigSource`];
//! this module validates the raw data and assembles the
//! [`IntegrationTestConfig`]. A missing source is `NotFound`; a source
//! that cannot be decoded, or whose data breaks the model's invariants
//! (a duplicate variable key, an empty or repeated environment name),
//! is `ParseError`. A configuration is returned only when it is fully
//! valid — a partially loaded entry never appears.

use vstd::prelude::*;
use crate::config::{environment_names_valid, IntegrationTestConfig, RunnerConfig};
use crate::envmap::{keys_unique, Environment};
use crate::errors::ShowError;

verus! {

/// The raw, not yet validated data of one configuration source, as the
/// caller decoded it from disk.
#[derive(Debug, PartialEq, Eq, Clone)]
pub struct ConfigSource {
    /// Test invocation arguments, in order.
    pub args: Vec<String>,
    /// Base environment-variable entries, in declaration order.
    pub env: Vec<(String, Option<String>)>,
    /// The runner's environment-variable entries.
    pub runner_env: Vec<(String, Option<String>)>,
    /// The runner's volume mounts: (target, source) in declaration order.
    pub volumes: Vec<(String, String)>,
    /// Whether the runner needs the docker socket.
    pub needs_docker_socket: bool,
    /// Declared environments: (name, override entries) in declaration
    /// order.
    pub environments: Vec<(String, Vec<(String, Option<String>)>)>,
}

/// What resolving an integration name produced: no source at all, a
/// source that exists but could not be decoded (with the cause), or a
/// decoded source together with its location.
#[derive(Debug, PartialEq, Eq, Clone)]
pub enum SourceLookup {
    Missing,
    Malformed(String),
    Found(String, ConfigSource),
}

/// True when the raw environment mapping is valid: every name
/// non-empty, no name declared twice, and every override map free of
/// duplicate keys.
pub open spec fn raw_environments_valid(
    environments: Seq<(String, Vec<(String, Option<String>)>)>,
) -> bool {
    &&& forall|i: int|
        0 <= i < environments.len() ==> (#[trigger] environments[i]).0@.len() > 0
    &&& forall|i: int, j: int|
        0 <= i < j < environments.len() ==> environments[i].0@ != environments[j].0@
    &&& forall|i: int|
        0 <= i < environments.len() ==> keys_unique((#[trigger] environments[i]).1@)
}

/// True when the raw source satisfies every invariant of the model:
/// unique keys in the base and runner maps, and a valid environment
/// mapping.
pub open spec fn source_valid(s: ConfigSource) -> bool {
    &&& keys_unique(s.env@)
    &&& keys_unique(s.runner_env@)
    &&& raw_environments_valid(s.environments@)
}

/// The cause recorded when a decoded source breaks the model's
/// invariants.
pub open spec fn invalid_source_cause() -> Seq<char> {
    "duplicate variable key, or empty or repeated environment name"@
}

/// True when `c` is exactly the configuration that the raw source `s`
/// describes: same arguments, maps, runner profile and environment
/// mapping, entry by entry in declaration order.
pub open spec fn loaded_matches(s: ConfigSource, c: IntegrationTestConfig) -> bool {
    &&& c.args == s.args
    &&& c.env@ == s.env@
    &&& c.runner.env@ == s.runner_env@
    &&& c.runner.volumes == s.volumes
    &&& c.runner.needs_docker_socket == s.needs_docker_socket
    &&& c.environments@.len() == s.environments@.len()
    &&& forall|i: int|
        0 <= i < s.environments@.len() ==> {
            &&& (#[trigger] c.environments@[i]).0 == s.environments@[i].0
            &&& c.environments@[i].1@ == s.environments@[i].1@
        }
}

/// The round-trip law: loading the same unmodified configuration
/// source twice yields structurally identical configurations — the
/// loaded configuration is a function of the source alone, entry by
/// entry.
pub proof fn lemma_load_round_trip(
    s1: ConfigSource,
    s2: ConfigSource,
    c1: IntegrationTestConfig,
    c2: IntegrationTestConfig,
)
    requires
        s1 == s2,
        loaded_matches(s1, c1),
        loaded_matches(s2, c2),
    ensures
        c1.args == c2.args,
        c1.env@ == c2.env@,
        c1.runner.env@ == c2.runner.env@,
        c1.runner.volumes == c2.runner.volumes,
        c1.runner.needs_docker_socket == c2.runner.needs_docker_socket,
        c1.environments@.len() == c2.environments@.len(),
        forall|i: int|
            0 <= i < c1.environments@.len() ==> {
                &&& (#[trigger] c1.environments@[i]).0 == c2.environments@[i].0
                &&& c1.environments@[i].1@ == c2.environments@[i].1@
            },
{
    assert forall|i: int| 0 <= i < c1.environments@.len() implies {
        &&& (#[trigger] c1.environments@[i]).0 == c2.environments@[i].0
        &&& c1.environments@[i].1@ == c2.environments@[i].1@
    } by {
        assert(c1.environments@[i].0 == s1.environments@[i].0);
        assert(c2.environments@[i].0 == s2.environments@[i].0);
    }
}

/// The `ParseError` for a decoded source that breaks the model's
/// invariants.
fn invalid_source_error(integration: &String) -> (e: ShowError)
    ensures
        (e matches ShowError::ParseError { integration: gi, cause } && gi == *integration
            && cause@ == invalid_source_cause()),
{
    ShowError::ParseError {
        integration: integration.clone(),
        cause: "duplicate variable key, or empty or repeated environment name".to_owned(),
    }
}

/// Validates one decoded source and assembles the configuration.
/// Succeeds exactly when the source is valid; the result then matches
/// the source entry for entry.
pub fn load_source(integration: &String, source: ConfigSource) -> (r: Result<
    IntegrationTestConfig,
    ShowError,
>)
    ensures
        r is Ok <==> source_valid(source),
        r matches Ok(c) ==> loaded_matches(source, c) && c.wf(),
        r matches Err(e) ==> (e matches ShowError::ParseError { integration: gi, cause }
            && gi == *integration && cause@ == invalid_source_cause()),
{
    let ghost s0 = source;
    let ConfigSource { args, env, runner_env, volumes, needs_docker_socket, environments } =
        source;
    proof {
        assert(env == s0.env);
        assert(runner_env == s0.runner_env);
        assert(environments == s0.environments);
    }
    if !check_raw_environment_names(&environments) {
        return Err(invalid_source_error(integration));
    }
    let base_env = match Environment::from_entries(env) {
        Some(m) => m,
        None => {
            return Err(invalid_source_error(integration));
        },
    };
    let runner_env_map = match Environment::from_entries(runner_env) {
        Some(m) => m,
        None => {
            return Err(invalid_source_error(integration));
        },
    };
    let mut remaining = environments;
    let ghost orig = remaining@;
    let mut built: Vec<(String, Environment)> = Vec::new();
    while remaining.len() > 0
        invariant
            s0 == source,
            orig == s0.environments@,
            built@.len() + remaining@.len() == orig.len(),
            remaining@ == orig.subrange(built@.len() as int, orig.len() as int),
            forall|i: int|
                0 <= i < built@.len() ==> {
                    &&& (#[trigger] built@[i]).0 == orig[i].0
                    &&& built@[i].1@ == orig[i].1@
                    &&& keys_unique(orig[i].1@)
                },
        decreases remaining@.len(),
    {
        let ghost k = built@.len() as int;
        let (name, entries) = remaining.remove(0);
        let ghost entries_view = entries@;
        proof {
            assert(orig.subrange(k, orig.len() as int)[0] == orig[k]);
            assert((name, entries) == orig[k]);
            assert(entries_view == orig[k].1@);
            assert(remaining@ =~= orig.subrange(k + 1, orig.len() as int));
        }
        match Environment::from_entries(entries) {
            Some(m) => {
                built.push((name, m));
            },
            None => {
                proof {
                    assert(!keys_unique(entries_view));
                    assert(entries_view == s0.environments@[k].1@);
                    assert(!keys_unique(s0.environments@[k].1@));
                    assert(!raw_environments_valid(s0.environments@));
                    assert(!source_valid(s0));
                }
                return Err(invalid_source_error(integration));
            },
        }
    }
    let runner = RunnerConfig { env: runner_env_map, volumes, needs_docker_socket };
    proof {
        assert(built@.len() == orig.len());
        assert forall|i: int| 0 <= i < built@.len() implies (#[trigger] built@[i]).0@.len()
            > 0 by {
            assert(built@[i].0 == orig[i].0);
            assert((#[trigger] s0.environments@[i]).0@.len() > 0);
        }
        assert forall|i: int, j: int| 0 <= i < j < built@.len() implies built@[i].0@
            != built@[j].0@ by {
            assert(built@[i].0 == orig[i].0);
            assert(built@[j].0 == orig[j].0);
            assert(s0.environments@[i].0@ != s0.environments@[j].0@);
        }
        assert(environment_names_valid(built@));
        assert forall|i: int| 0 <= i < s0.environments@.len() implies keys_unique(
            (#[trigger] s0.environments@[i]).1@,
        ) by {
            assert(built@[i].1@ == orig[i].1@);
            assert(s0.environments@[i] == orig[i]);
        }
        assert(raw_environments_valid(s0.environments@));
    }
    Ok(IntegrationTestConfig { args, env: base_env, runner, environments: built })
}

/// True iff every raw environment name is non-empty and no name occurs
/// twice.
fn check_raw_environment_names(
    environments: &Vec<(String, Vec<(String, Option<String>)>)>,
) -> (r: bool)
    ensures
        r == ((forall|i: int|
            0 <= i < environments@.len() ==> (#[trigger] environments@[i]).0@.len() > 0) && (
        forall|i: int, j: int|
            0 <= i < j < environments@.len() ==> environments@[i].0@ != environments@[j].0@)),
{
    let n = environments.len();
    let mut i: usize = 0;
    while i < n
        invariant
            n == environments@.len(),
            i <= n,
            forall|p: int| 0 <= p < i ==> (#[trigger] environments@[p]).0@.len() > 0,
            forall|p: int, q: int| 0 <= p < q < i ==> environments@[p].0@ != environments@[q].0@,
        decreases n - i,
    {
        if environments[i].0.as_str().is_empty() {
            return false;
        }
        let mut j: usize = 0;
        while j < i
            invariant
                n == environments@.len(),
                i < n,
                j <= i,
                forall|q: int| 0 <= q < j ==> environments@[q].0@ != environments@[i as int].0@,
            decreases i - j,
        {
            if environments[j].0 == environments[i].0 {
                return false;
            }
            j = j + 1;
        }
        i = i + 1;
    }
    true
}

/// Resolves one lookup outcome into the loaded configuration with its
/// location: `NotFound` for a missing source, `ParseError` for one
/// that could not be decoded or whose data is invalid, and the fully
/// valid configuration otherwise.
pub fn load(integration: &String, lookup: SourceLookup) -> (r: Result<
    (String, IntegrationTestConfig),
    ShowError,
>)
    ensures
        lookup is Missing ==> (r matches Err(e) && e matches ShowError::NotFound {
            integration: gi,
        } && gi == *integration),
        lookup matches SourceLookup::Malformed(cause) ==> (r matches Err(e)
            && e matches ShowError::ParseError { integration: gi, cause: gc }
            && gi == *integration && gc == cause),
        lookup matches SourceLookup::Found(location, source) ==> {
            &&& source_valid(source) ==> (r matches Ok(p) && p.0 == location && loaded_matches(
                source,
                p.1,
            ) && p.1.wf())
            &&& !source_valid(source) ==> (r matches Err(e) && e matches ShowError::ParseError {
                integration: gi,
                cause: gc,
            } && gi == *integration && gc@ == invalid_source_cause())
        },
        r is Ok <==> (lookup matches SourceLookup::Found(location, source) && source_valid(
            source,
        )),
{
    match lookup {
        SourceLookup::Missing => Err(
            ShowError::NotFound { integration: integration.clone() },
        ),
        SourceLookup::Malformed(cause) => Err(
            ShowError::ParseError { integration: integration.clone(), cause },
        ),
        SourceLookup::Found(location, source) => match load_source(integration, source) {
            Ok(c) => Ok((location, c)),
            Err(e) => Err(e),
        },
    }
}

/// True when a lookup outcome loads: a decoded source was found and it
/// is valid.
pub open spec fn lookup_loads(lookup: SourceLookup) -> bool {
    lookup matches SourceLookup::Found(location, source) && source_valid(source)
}

/// The error that loading one integration's lookup outcome produces.
pub open spec fn load_error_for(integration: String, lookup: SourceLookup, e: ShowError) -> bool {
    match lookup {
        SourceLookup::Missing => e matches ShowError::NotFound { integration: gi } && gi
            == integration,
        SourceLookup::Malformed(cause) => e matches ShowError::ParseError {
            integration: gi,
            cause: gc,
        } && gi == integration && gc == cause,
        SourceLookup::Found(location, source) => !source_valid(source)
            && (e matches ShowError::ParseError { integration: gi, cause: gc } && gi == integration
            && gc@ == invalid_source_cause()),
    }
}

/// Loads every enumerated integration. Succeeds exactly when every
/// lookup outcome loads; the result then maps each integration name,
/// in enumeration order, to its fully valid configuration — a
/// partially loaded entry never appears. The first integration that
/// fails to load aborts the collection with its own error.
pub fn collect_all(found: Vec<(String, SourceLookup)>) -> (r: Result<
    Vec<(String, IntegrationTestConfig)>,
    ShowError,
>)
    ensures
        r is Ok <==> (forall|i: int|
            0 <= i < found@.len() ==> lookup_loads((#[trigger] found@[i]).1)),
        r matches Ok(m) ==> {
            &&& m@.len() == found@.len()
            &&& forall|i: int|
                0 <= i < found@.len() ==> {
                    &&& (#[trigger] m@[i]).0 == found@[i].0
                    &&& (found@[i].1 matches SourceLookup::Found(location, source)
                        && loaded_matches(source, m@[i].1) && m@[i].1.wf())
                }
        },
        r matches Err(e) ==> (exists|i: int|
            0 <= i < found@.len() && (forall|j: int|
                0 <= j < i ==> lookup_loads((#[trigger] found@[j]).1)) && !lookup_loads((
            #[trigger] found@[i]).1) && load_error_for(found@[i].0, found@[i].1, e)),
{
    let mut remaining = found;
    let ghost all = remaining@;
    let mut m: Vec<(String, IntegrationTestConfig)> = Vec::new();
    while remaining.len() > 0
        invariant
            all == found@,
            m@.len() + remaining@.len() == all.len(),
            remaining@ == all.subrange(m@.len() as int, all.len() as int),
            forall|j: int|
                0 <= j < m@.len() ==> {
                    &&& (#[trigger] m@[j]).0 == all[j].0
                    &&& lookup_loads(all[j].1)
                    &&& (all[j].1 matches SourceLookup::Found(location, source)
                        && loaded_matches(source, m@[j].1) && m@[j].1.wf())
                },
        decreases remaining@.len(),
    {
        let ghost k = m@.len() as int;
        proof {
            assert(all.subrange(k, all.len() as int)[0] == all[k]);
        }
        let (integration, lookup) = remaining.remove(0);
        proof {
            assert((integration, lookup) == all[k]);
            assert(remaining@ =~= all.subrange(k + 1, all.len() as int));
        }
        match load(&integration, lookup) {
            Ok(p) => {
                m.push((integration, p.1));
            },
            Err(e) => {
                proof {
                    assert forall|j: int| 0 <= j < k implies lookup_loads((
                    #[trigger] found@[j]).1) by {
                        assert(m@[j].0 == all[j].0);
                    }
                    assert(!lookup_loads(found@[k].1));
                    assert(load_error_for(found@[k].0, found@[k].1, e));
                }
                return Err(e);
            },
        }
    }
    proof {
        assert forall|i: int| 0 <= i < found@.len() implies lookup_loads((
        #[trigger] found@[i]).1) by {
            assert(m@[i].0 == all[i].0);
        }
    }
    Ok(m)
}

} // verus!
