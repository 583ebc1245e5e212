//! The integration test configuration: invocation arguments, a base
//! environment-variable map, a runner profile, and the mapping from
//! environment name to that environment's override map. Environment
//! names are unique and non-empty; the mapping may be empty (an
//! integration may declare zero usable environments).

use vstd::prelude::*;
use crate::envmap::Environment;

verus! {

/// The execution profile shared by an integration's environments: its
/// own environment-variable map, an ordered list of volume mounts
/// (target, source) — duplicates are not rejected here — and whether
/// the runner needs the docker socket.
#[derive(Debug, PartialEq, Eq)]
pub struct RunnerConfig {
    pub env: Environment,
    pub volumes: Vec<(String, String)>,
    pub needs_docker_socket: bool,
}

/// True when `environments` is a valid environment mapping: every name
/// non-empty and no name declared twice.
pub open spec fn environment_names_valid(environments: Seq<(String, Environment)>) -> bool {
    &&& forall|i: int| 0 <= i < environments.len() ==> (#[trigger] environments[i]).0@.len() > 0
    &&& forall|i: int, j: int|
        0 <= i < j < environments.len() ==> environments[i].0@ != environments[j].0@
}

/// One integration's declared configuration. Read-only once built: the
/// loader constructs it from a configuration source and nothing
/// mutates it afterwards.
#[derive(Debug, PartialEq, Eq)]
pub struct IntegrationTestConfig {
    /// The test invocation arguments, in order.
    pub args: Vec<String>,
    /// The base environment-variable map.
    pub env: Environment,
    /// The runner profile.
    pub runner: RunnerConfig,
    /// The environment mapping: (name, override map) pairs in
    /// declaration order.
    pub environments: Vec<(String, Environment)>,
}

impl IntegrationTestConfig {
    /// The names of the declared environments are unique and non-empty.
    pub open spec fn wf(&self) -> bool {
        environment_names_valid(self.environments@)
    }

    /// Assembles a configuration; `None` exactly when the environment
    /// mapping declares an empty name or declares a name twice.
    pub fn new(
        args: Vec<String>,
        env: Environment,
        runner: RunnerConfig,
        environments: Vec<(String, Environment)>,
    ) -> (r: Option<IntegrationTestConfig>)
        ensures
            r is Some <==> environment_names_valid(environments@),
            r matches Some(c) ==> {
                &&& c.wf()
                &&& c.args == args
                &&& c.env == env
                &&& c.runner == runner
                &&& c.environments@ == environments@
            },
    {
        if check_environment_names(&environments) {
            Some(IntegrationTestConfig { args, env, runner, environments })
        } else {
            None
        }
    }

    /// The declared environments, in declaration order.
    pub fn environments(&self) -> (r: &Vec<(String, Environment)>)
        ensures
            r@ == self.environments@,
    {
        &self.environments
    }
}

/// True iff every environment name is non-empty and no name occurs
/// twice.
pub fn check_environment_names(environments: &Vec<(String, Environment)>) -> (r: bool)
    ensures
        r == environment_names_valid(environments@),
{
    let n = environments.len();
    let mut i: usize = 0;
    while i < n
        invariant
            n == environments@.len(),
            i <= n,
            forall|p: int| 0 <= p < i ==> (#[trigger] environments@[p]).0@.len() > 0,
            forall|p: int, q: int| 0 <= p < q < i ==> environments@[p].0@ != environments@[q].0@,
        decreases n - i,
    {
        if environments[i].0.as_str().is_empty() {
            return false;
        }
        let mut j: usize = 0;
        while j < i
            invariant
                n == environments@.len(),
                i < n,
                j <= i,
                forall|q: int| 0 <= q < j ==> environments@[q].0@ != environments@[i as int].0@,
            decreases i - j,
        {
            if environments[j].0 == environments[i].0 {
                return false;
            }
            j = j + 1;
        }
        i = i + 1;
    }
    true
}

} // verus!
