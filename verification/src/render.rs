//! Display rendering for environment-variable maps and volume lists.
//!
//! The display contract for one map entry: a present value renders as
//! `key=value` with the value quoted and escaped, so that embedded
//! whitespace and special characters are unambiguous; an absent value
//! renders as `key (passthrough)`. An empty map or volume list renders
//! as a single explicit `N/A` line, never as nothing.

use vstd::prelude::*;
use crate::envmap::Environment;

verus! {

/// The quoted, escaped display form of a string value, as std's `Debug`
/// formatting for `str` produces it. It depends on the characters alone.
pub uninterp spec fn debug_quoted(s: Seq<char>) -> Seq<char>;

/// Relies on std's `Debug` formatting for `String` (`format!("{:?}")`):
/// the quoted, escaped form is a function of the characters alone.
#[verifier::external_body]
fn quote_value(s: &String) -> (r: String)
    ensures
        r@ == debug_quoted(s@),
{
    format!("{:?}", s)
}

/// The view of an optional value.
pub open spec fn opt_view(v: Option<String>) -> Option<Seq<char>> {
    match v {
        Some(s) => Some(s@),
        None => None,
    }
}

/// The rendered form of one map entry: `key=` and the quoted value when
/// a value is present, `key (passthrough)` when it is absent.
pub open spec fn rendered_entry(key: Seq<char>, value: Option<Seq<char>>) -> Seq<char> {
    match value {
        Some(v) => key + "="@ + debug_quoted(v),
        None => key + " (passthrough)"@,
    }
}

/// Renders one environment-variable entry for display.
pub fn render_entry(key: &String, value: &Option<String>) -> (r: String)
    ensures
        r@ == rendered_entry(key@, opt_view(*value)),
{
    match value {
        Some(v) => {
            let quoted = quote_value(v);
            key.clone().concat("=").concat(quoted.as_str())
        },
        None => key.clone().concat(" (passthrough)"),
    }
}

/// A rendered entry never equals the bare key: a present value always
/// brings `=` right after the key, and an absent value always brings
/// ` (passthrough)`.
pub proof fn lemma_rendered_entry_shape(key: Seq<char>, value: Option<Seq<char>>)
    ensures
        value matches Some(v) ==> {
            &&& rendered_entry(key, value).len() > key.len()
            &&& rendered_entry(key, value)[key.len() as int] == '='
        },
        value is None ==> {
            &&& rendered_entry(key, value).len() == key.len() + " (passthrough)"@.len()
            &&& rendered_entry(key, value) == key + " (passthrough)"@
        },
{
    reveal_strlit("=");
    match value {
        Some(v) => {
            assert(rendered_entry(key, value) == key + "="@ + debug_quoted(v));
            assert((key + "="@ + debug_quoted(v))[key.len() as int] == '=');
        },
        None => {},
    }
}

/// The lines that display an environment-variable map, each starting
/// with `prefix`: one line per entry in declaration order, or a single
/// `N/A` line when the map is empty.
pub fn render_env_lines(prefix: &str, environment: &Environment) -> (r: Vec<String>)
    ensures
        environment@.len() == 0 ==> r@.len() == 1 && r@[0]@ == prefix@ + "N/A"@,
        environment@.len() > 0 ==> {
            &&& r@.len() == environment@.len()
            &&& forall|i: int|
                0 <= i < r@.len() ==> r@[i]@ == prefix@ + rendered_entry(
                    environment@[i].0@,
                    opt_view(environment@[i].1),
                )
        },
        r@.len() > 0,
{
    let mut r: Vec<String> = Vec::new();
    if environment.is_empty() {
        r.push(prefix.to_owned().concat("N/A"));
        return r;
    }
    let entries = environment.entries();
    let n = entries.len();
    let mut i: usize = 0;
    while i < n
        invariant
            n == environment@.len(),
            entries@ == environment@,
            i <= n,
            r@.len() == i,
            forall|j: int|
                0 <= j < i ==> r@[j]@ == prefix@ + rendered_entry(
                    environment@[j].0@,
                    opt_view(environment@[j].1),
                ),
        decreases n - i,
    {
        let line = render_entry(&entries[i].0, &entries[i].1);
        r.push(prefix.to_owned().concat(line.as_str()));
        i = i + 1;
    }
    r
}

/// The lines that display a runner's volume list, each starting with
/// `prefix`: one `target => source` line per volume in declaration
/// order, or a single explicit `N/A` line when the list is empty —
/// never an empty list of lines.
pub fn render_volume_lines(prefix: &str, volumes: &Vec<(String, String)>) -> (r: Vec<String>)
    ensures
        volumes@.len() == 0 ==> r@.len() == 1 && r@[0]@ == prefix@ + "N/A"@,
        volumes@.len() > 0 ==> {
            &&& r@.len() == volumes@.len()
            &&& forall|i: int|
                0 <= i < r@.len() ==> r@[i]@ == prefix@ + volumes@[i].0@ + " => "@
                    + volumes@[i].1@
        },
        r@.len() > 0,
{
    let mut r: Vec<String> = Vec::new();
    if volumes.len() == 0 {
        r.push(prefix.to_owned().concat("N/A"));
        return r;
    }
    let n = volumes.len();
    let mut i: usize = 0;
    while i < n
        invariant
            n == volumes@.len(),
            i <= n,
            r@.len() == i,
            forall|j: int|
                0 <= j < i ==> r@[j]@ == prefix@ + volumes@[j].0@ + " => "@ + volumes@[j].1@,
        decreases n - i,
    {
        let line = prefix.to_owned().concat(volumes[i].0.as_str()).concat(" => ").concat(
            volumes[i].1.as_str(),
        );
        r.push(line);
        i = i + 1;
    }
    r
}

} // verus!
