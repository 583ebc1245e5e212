//! The two read-only compositions of loader and state store. The
//! summary view covers every collected integration: a display column
//! width (at least 16, and at least every integration name's length)
//! and, per integration, its environment names labeled with the
//! active-suffix rule and joined with two spaces. The detail view
//! covers one integration: its full configuration, its active
//! environment, and the same labeled environment names.
//!
//! The active-suffix rule: an environment name equal to the queried
//! active environment (exact, case-sensitive string equality) is
//! labeled `name (active)`; every other name, and every name when no
//! environment is active, stays unsuffixed.

use vstd::prelude::*;
use crate::config::IntegrationTestConfig;
use crate::envmap::Environment;
use crate::errors::ShowError;
use crate::loader::{load, loaded_matches, source_valid, SourceLookup};
use crate::state::{EnvsDir, StateRead};

verus! {

/// The label for one environment name under the active-suffix rule.
pub open spec fn label_of(active_env: Option<String>, environment: Seq<char>) -> Seq<char> {
    match active_env {
        Some(active) => if active@ == environment {
            environment + " (active)"@
        } else {
            environment
        },
        None => environment,
    }
}

/// Labels one environment name: the name itself, suffixed with
/// ` (active)` exactly when it equals the active environment.
pub fn format(active_env: &Option<String>, environment: &str) -> (r: String)
    ensures
        r@ == label_of(*active_env, environment@),
{
    match active_env {
        Some(active) => {
            let e = environment.to_owned();
            if *active == e {
                e.concat(" (active)")
            } else {
                e
            }
        },
        None => environment.to_owned(),
    }
}

/// The active-suffix law: the name equal to the active environment is
/// labeled exactly `name (active)`; every other name is unsuffixed,
/// and with no active environment every name is unsuffixed.
pub proof fn lemma_active_suffix_labeling(active_env: Option<String>, environment: Seq<char>)
    ensures
        (active_env matches Some(active) && active@ == environment) ==> label_of(
            active_env,
            environment,
        ) == environment + " (active)"@,
        (active_env matches Some(active) && active@ != environment) ==> label_of(
            active_env,
            environment,
        ) == environment,
        active_env is None ==> label_of(active_env, environment) == environment,
{
}

/// The views of a sequence of strings.
pub open spec fn views_of(parts: Seq<String>) -> Seq<Seq<char>> {
    parts.map_values(|p: String| p@)
}

/// The characters of `parts` joined with `sep` between consecutive
/// parts.
pub open spec fn joined_with(parts: Seq<Seq<char>>, sep: Seq<char>) -> Seq<char>
    decreases parts.len(),
{
    if parts.len() == 0 {
        Seq::empty()
    } else if parts.len() == 1 {
        parts[0]
    } else {
        joined_with(parts.drop_last(), sep) + sep + parts.last()
    }
}

/// Joins strings with a separator between consecutive parts.
pub fn join_strings(parts: &Vec<String>, sep: &str) -> (r: String)
    ensures
        r@ == joined_with(views_of(parts@), sep@),
{
    let mut r = String::new();
    let n = parts.len();
    let mut i: usize = 0;
    while i < n
        invariant
            n == parts@.len(),
            i <= n,
            r@ == joined_with(views_of(parts@.take(i as int)), sep@),
        decreases n - i,
    {
        if i > 0 {
            r.append(sep);
        }
        r.append(parts[i].as_str());
        proof {
            assert(views_of(parts@.take(i + 1)).drop_last() =~= views_of(
                parts@.take(i as int),
            ));
            assert(views_of(parts@.take(i + 1)).last() == parts@[i as int]@);
        }
        i = i + 1;
    }
    proof {
        assert(parts@.take(n as int) =~= parts@);
    }
    r
}

/// The summary column width for a collected set: 16, or the longest
/// integration name if that is longer.
pub open spec fn summary_name_width(entries: Seq<(String, IntegrationTestConfig)>) -> int
    decreases entries.len(),
{
    if entries.len() == 0 {
        16
    } else {
        let rest = summary_name_width(entries.drop_last());
        let last = entries.last().0@.len() as int;
        if last > rest {
            last
        } else {
            rest
        }
    }
}

/// The width law: the computed width is at least 16 and at least the
/// length of every integration name in the collected set.
pub proof fn lemma_summary_width_bounds(entries: Seq<(String, IntegrationTestConfig)>)
    ensures
        summary_name_width(entries) >= 16,
        forall|i: int|
            0 <= i < entries.len() ==> summary_name_width(entries) >= (
            #[trigger] entries[i]).0@.len(),
    decreases entries.len(),
{
    if entries.len() > 0 {
        lemma_summary_width_bounds(entries.drop_last());
        assert forall|i: int|
            0 <= i < entries.len() implies summary_name_width(entries) >= (
        #[trigger] entries[i]).0@.len() by {
            if i < entries.len() - 1 {
                assert(entries.drop_last()[i] == entries[i]);
            }
        }
    }
}

/// Computes the summary column width, in characters.
pub fn summary_width(entries: &Vec<(String, IntegrationTestConfig)>) -> (w: usize)
    ensures
        w as int == summary_name_width(entries@),
        w >= 16,
        forall|i: int| 0 <= i < entries@.len() ==> w >= (#[trigger] entries@[i]).0@.len(),
{
    let mut w: usize = 16;
    let n = entries.len();
    let mut i: usize = 0;
    while i < n
        invariant
            n == entries@.len(),
            i <= n,
            w as int == summary_name_width(entries@.take(i as int)),
        decreases n - i,
    {
        let l = entries[i].0.as_str().unicode_len();
        proof {
            assert(entries@.take(i + 1).drop_last() =~= entries@.take(i as int));
            assert(entries@.take(i + 1).last() == entries@[i as int]);
        }
        if l > w {
            w = l;
        }
        i = i + 1;
    }
    proof {
        assert(entries@.take(n as int) =~= entries@);
        lemma_summary_width_bounds(entries@);
    }
    w
}

/// Which environment a state read makes active: the recorded name, or
/// none for a missing record.
pub open spec fn read_active(read: StateRead) -> Option<String> {
    match read {
        StateRead::Active(environment) => Some(environment),
        _ => None,
    }
}

/// The labels of a declared environment mapping under the active-suffix
/// rule, in declaration order.
pub open spec fn spec_labels(
    active_env: Option<String>,
    environments: Seq<(String, Environment)>,
) -> Seq<Seq<char>> {
    Seq::new(environments.len(), |i: int| label_of(active_env, environments[i].0@))
}

/// Labels every declared environment name, in declaration order.
pub fn environment_labels(
    active_env: &Option<String>,
    environments: &Vec<(String, Environment)>,
) -> (r: Vec<String>)
    ensures
        views_of(r@) == spec_labels(*active_env, environments@),
{
    let mut r: Vec<String> = Vec::new();
    let n = environments.len();
    let mut i: usize = 0;
    while i < n
        invariant
            n == environments@.len(),
            i <= n,
            r@.len() == i,
            forall|j: int|
                0 <= j < i ==> (#[trigger] r@[j])@ == label_of(
                    *active_env,
                    environments@[j].0@,
                ),
        decreases n - i,
    {
        let label = format(active_env, environments[i].0.as_str());
        r.push(label);
        i = i + 1;
    }
    proof {
        assert(views_of(r@) =~= spec_labels(*active_env, environments@));
    }
    r
}

/// One row of the summary view: the integration name and its labeled
/// environment names joined with two spaces.
#[derive(Debug, PartialEq, Eq, Clone)]
pub struct SummaryRow {
    pub integration: String,
    pub environments: String,
}

/// The summary view over the collected set: the display column width
/// and one row per integration, in collection order.
#[derive(Debug, PartialEq, Eq, Clone)]
pub struct SummaryView {
    pub width: usize,
    pub rows: Vec<SummaryRow>,
}

/// Composes the summary view: for each collected integration, its
/// declared environment names labeled under the active-suffix rule
/// against that integration's state read, joined with two spaces.
/// Fails with the `StateReadError` of an integration whose state read
/// was unreadable; succeeds exactly when every read is readable.
pub fn summary(entries: &Vec<(String, IntegrationTestConfig)>, reads: Vec<StateRead>) -> (r:
    Result<SummaryView, ShowError>)
    requires
        reads@.len() == entries@.len(),
    ensures
        r is Ok <==> (forall|i: int|
            0 <= i < reads@.len() ==> !((#[trigger] reads@[i]) is Unreadable)),
        r matches Ok(v) ==> {
            &&& v.width as int == summary_name_width(entries@)
            &&& v.rows@.len() == entries@.len()
            &&& forall|i: int|
                0 <= i < entries@.len() ==> {
                    &&& (#[trigger] v.rows@[i]).integration == entries@[i].0
                    &&& v.rows@[i].environments@ == joined_with(
                        spec_labels(read_active(reads@[i]), entries@[i].1.environments@),
                        "  "@,
                    )
                }
        },
        r matches Err(e) ==> (exists|i: int|
            0 <= i < reads@.len() && (forall|j: int|
                0 <= j < i ==> !((#[trigger] reads@[j]) is Unreadable)) && ((
            #[trigger] reads@[i]) matches StateRead::Unreadable(cause) && (
            e matches ShowError::StateReadError { integration: gi, cause: gc } && gi
                == entries@[i].0 && gc == cause))),
{
    let width = summary_width(entries);
    let mut rows: Vec<SummaryRow> = Vec::new();
    let mut remaining = reads;
    let ghost all_reads = remaining@;
    let n = entries.len();
    let mut i: usize = 0;
    while i < n
        invariant
            all_reads == reads@,
            all_reads.len() == entries@.len(),
            n == entries@.len(),
            i <= n,
            remaining@ == all_reads.subrange(i as int, all_reads.len() as int),
            rows@.len() == i,
            forall|j: int|
                0 <= j < i ==> {
                    &&& (#[trigger] rows@[j]).integration == entries@[j].0
                    &&& rows@[j].environments@ == joined_with(
                        spec_labels(read_active(all_reads[j]), entries@[j].1.environments@),
                        "  "@,
                    )
                    &&& !(all_reads[j] is Unreadable)
                },
        decreases n - i,
    {
        proof {
            assert(all_reads.subrange(i as int, all_reads.len() as int)[0] == all_reads[i as int]);
        }
        let read = remaining.remove(0);
        proof {
            assert(remaining@ =~= all_reads.subrange(i + 1, all_reads.len() as int));
        }
        let envs_dir = EnvsDir::new(&entries[i].0, read);
        match envs_dir.active() {
            Ok(active_env) => {
                let labels = environment_labels(&active_env, entries[i].1.environments());
                let joined = join_strings(&labels, "  ");
                rows.push(
                    SummaryRow { integration: entries[i].0.clone(), environments: joined },
                );
            },
            Err(e) => {
                proof {
                    let k = i as int;
                    assert(reads@[k] == read);
                    assert forall|j: int| 0 <= j < k implies !((#[trigger] reads@[j])
                        is Unreadable) by {
                        assert(rows@[j].integration == entries@[j].0);
                    }
                    assert((reads@[k] matches StateRead::Unreadable(cause) && (
                    e matches ShowError::StateReadError { integration: gi, cause: gc } && gi
                        == entries@[k].0 && gc == cause)));
                }
                return Err(e);
            },
        }
        i = i + 1;
    }
    proof {
        assert forall|j: int| 0 <= j < reads@.len() implies !((#[trigger] reads@[j])
            is Unreadable) by {
            assert(rows@[j].integration == entries@[j].0);
        }
    }
    Ok(SummaryView { width, rows })
}

/// The detail view of one integration: its location and full
/// configuration, which environment is active, and the declared
/// environment names labeled under the active-suffix rule, in
/// declaration order. Plain structured data; the presentation layer
/// renders it.
#[derive(Debug, PartialEq, Eq)]
pub struct DetailView {
    pub location: String,
    pub args: Vec<String>,
    pub env: Environment,
    pub runner: crate::config::RunnerConfig,
    pub environment_labels: Vec<String>,
    pub active_env: Option<String>,
}

/// Composes the detail view for one integration: loads its
/// configuration (failing the whole operation if the load fails), then
/// queries its active environment, then labels its declared
/// environment names. Succeeds exactly when the source was found and
/// valid and the state read was readable.
pub fn detail(integration: &String, lookup: SourceLookup, read: StateRead) -> (r: Result<
    DetailView,
    ShowError,
>)
    ensures
        lookup is Missing ==> (r matches Err(e) && e matches ShowError::NotFound {
            integration: gi,
        } && gi == *integration),
        lookup matches SourceLookup::Malformed(cause) ==> (r matches Err(e)
            && e matches ShowError::ParseError { integration: gi, cause: gc }
            && gi == *integration && gc == cause),
        lookup matches SourceLookup::Found(location, source) ==> {
            &&& !source_valid(source) ==> (r matches Err(e) && e matches ShowError::ParseError {
                integration: gi,
                cause: gc,
            } && gi == *integration && gc@ == crate::loader::invalid_source_cause())
            &&& read matches StateRead::Unreadable(cause) ==> (source_valid(source) ==> (
            r matches Err(e) && e matches ShowError::StateReadError { integration: gi, cause: gc }
                && gi == *integration && gc == cause))
            &&& (source_valid(source) && !(read is Unreadable)) ==> (r matches Ok(v) && {
                &&& v.location == location
                &&& v.args == source.args
                &&& v.env@ == source.env@
                &&& v.runner.env@ == source.runner_env@
                &&& v.runner.volumes == source.volumes
                &&& v.runner.needs_docker_socket == source.needs_docker_socket
                &&& v.active_env == read_active(read)
                &&& v.environment_labels@.len() == source.environments@.len()
                &&& forall|i: int|
                    0 <= i < source.environments@.len() ==> (
                    #[trigger] v.environment_labels@[i])@ == label_of(
                        read_active(read),
                        source.environments@[i].0@,
                    )
            })
        },
        r is Ok <==> (lookup matches SourceLookup::Found(location, source) && source_valid(
            source,
        ) && !(read is Unreadable)),
{
    let ghost lookup0 = lookup;
    let (location, config) = match load(integration, lookup) {
        Ok(p) => p,
        Err(e) => {
            return Err(e);
        },
    };
    let envs_dir = EnvsDir::new(integration, read);
    let active_env = match envs_dir.active() {
        Ok(a) => a,
        Err(e) => {
            return Err(e);
        },
    };
    let labels = environment_labels(&active_env, config.environments());
    proof {
        assert(active_env == read_active(read));
        match lookup0 {
            SourceLookup::Found(location, source) => {
                assert(loaded_matches(source, config));
                assert(views_of(labels@).len() == labels@.len());
                assert(spec_labels(active_env, config.environments@).len()
                    == config.environments@.len());
                assert(labels@.len() == config.environments@.len());
                assert(source.environments@.len() == config.environments@.len());
                assert forall|i: int| 0 <= i < source.environments@.len() implies (
                #[trigger] labels@[i])@ == label_of(
                    read_active(read),
                    source.environments@[i].0@,
                ) by {
                    assert(views_of(labels@)[i] == labels@[i]@);
                    assert(spec_labels(active_env, config.environments@)[i] == label_of(
                        active_env,
                        config.environments@[i].0@,
                    ));
                    assert(config.environments@[i].0 == source.environments@[i].0);
                }
            },
            _ => {},
        }
    }
    let IntegrationTestConfig { args, env, runner, environments } = config;
    Ok(
        DetailView {
            location,
            args,
            env,
            runner,
            environment_labels: labels,
            active_env,
        },
    )
}

} // verus!
