//! Identifier resolution: mapping short, possibly ambiguous identifier
//! prefixes to full instance identifiers, and choosing display lengths
//! under which all shown prefixes stay distinct.

use crate::instance::InstanceDetails;
use crate::strutil::dec_digits;
use crate::strutil::is_prefix_of;
use crate::strutil::prefix_chars;
use crate::strutil::spec_min_len;
use crate::strutil::str_eq;
use crate::strutil::str_starts_with;
use crate::strutil::usize_to_string;
use vstd::prelude::*;
use vstd::string::*;

verus! {

/// The length of a full identifier; anything shorter is a prefix.
pub const UUID_LENGTH: usize = 36;

/// How an identifier was resolved.
#[derive(Debug)]
pub enum IdResolution {
    /// The input already was a full identifier.
    ExactMatch(String),
    /// The input was a prefix with exactly one match.
    PrefixMatch(String),
}

/// Why an identifier could not be resolved.
#[derive(Debug)]
pub enum ResolutionError {
    /// No instance identifier starts with this prefix.
    NotFound(String),
    /// More than one instance identifier starts with this prefix.
    Ambiguous { prefix: String, matches: Vec<InstanceDetails> },
    /// The instance list could not be fetched; the underlying message.
    ApiError(String),
}

impl ResolutionError {
    /// The message each variant renders as.
    pub open spec fn spec_message(self) -> Seq<char> {
        match self {
            ResolutionError::NotFound(prefix) => "No instance found with ID prefix '"@ + prefix@
                + "'"@,
            ResolutionError::Ambiguous { prefix, matches } => "Ambiguous ID prefix '"@ + prefix@
                + "' matches "@ + dec_digits(matches@.len() as int) + " instances"@,
            ResolutionError::ApiError(e) => "Failed to resolve instance ID: "@ + e@,
        }
    }

    /// A user-facing description of the failure.
    pub fn message(&self) -> (r: String)
        ensures
            r@ == self.spec_message(),
    {
        match self {
            ResolutionError::NotFound(prefix) => {
                let mut s = String::from_str("No instance found with ID prefix '");
                s.append(prefix.as_str());
                s.append("'");
                s
            },
            ResolutionError::Ambiguous { prefix, matches } => {
                let mut s = String::from_str("Ambiguous ID prefix '");
                s.append(prefix.as_str());
                s.append("' matches ");
                let n = usize_to_string(matches.len());
                s.append(n.as_str());
                s.append(" instances");
                s
            },
            ResolutionError::ApiError(e) => {
                let mut s = String::from_str("Failed to resolve instance ID: ");
                s.append(e.as_str());
                s
            },
        }
    }
}

/// The instances whose identifier starts with the given prefix, in list
/// order.
pub open spec fn matching_instances(input: Seq<char>, l: Seq<InstanceDetails>) -> Seq<
    InstanceDetails,
> {
    l.filter(|d: InstanceDetails| is_prefix_of(input, d.id@))
}

/// Resolve a user-supplied identifier against the instance list: a
/// 36-character input passes through untouched without consulting the
/// list; a shorter input resolves if exactly one identifier starts with
/// it, and otherwise reports no match or all matches.
pub fn resolve_instance_id(input: &str, instances: &Vec<InstanceDetails>) -> (r: Result<
    String,
    ResolutionError,
>)
    ensures
        input@.len() == UUID_LENGTH ==> (r matches Ok(s) && s@ == input@),
        input@.len() != UUID_LENGTH ==> ({
            let m = matching_instances(input@, instances@);
            if m.len() == 0 {
                r matches Err(e) && e matches ResolutionError::NotFound(p) && p@ == input@
            } else if m.len() == 1 {
                r matches Ok(s) && s@ == m[0].id@
            } else {
                r matches Err(e) && e matches ResolutionError::Ambiguous { prefix, matches }
                    && prefix@ == input@ && matches@ == m
            }
        }),
{
    if input.unicode_len() == UUID_LENGTH {
        return Ok(String::from_str(input));
    }
    let mut found: Vec<InstanceDetails> = Vec::new();
    let mut i: usize = 0;
    proof {
        reveal(Seq::filter);
        assert(instances@.take(0) =~= Seq::<InstanceDetails>::empty());
    }
    while i < instances.len()
        invariant
            i <= instances@.len(),
            found@ == matching_instances(input@, instances@.take(i as int)),
        decreases instances@.len() - i,
    {
        let ghost pre = instances@.take(i as int);
        proof {
            reveal(Seq::filter);
            assert(instances@.take(i as int + 1).drop_last() =~= pre);
            assert(instances@.take(i as int + 1).last() == instances@[i as int]);
        }
        if str_starts_with(instances[i].id.as_str(), input) {
            found.push(instances[i].clone());
        }
        i = i + 1;
    }
    proof {
        assert(instances@.take(instances@.len() as int) =~= instances@);
    }
    if found.len() == 0 {
        Err(ResolutionError::NotFound(String::from_str(input)))
    } else if found.len() == 1 {
        let id = found[0].id.clone();
        Ok(id)
    } else {
        Err(ResolutionError::Ambiguous { prefix: String::from_str(input), matches: found })
    }
}

/// At display length `k`, all shown identifier prefixes are pairwise
/// distinct (each identifier truncated to at most its own length).
pub open spec fn prefixes_distinct_at(l: Seq<InstanceDetails>, k: int) -> bool {
    forall|i: int, j: int|
        0 <= i < j < l.len() ==> (#[trigger] l[i].id@).take(spec_min_len(k, l[i].id@.len() as int))
            != (#[trigger] l[j].id@).take(spec_min_len(k, l[j].id@.len() as int))
}

/// Whether all shown prefixes are distinct at the given length.
fn all_prefixes_distinct(instances: &Vec<InstanceDetails>, k: usize) -> (r: bool)
    ensures
        r == prefixes_distinct_at(instances@, k as int),
{
    let n = instances.len();
    let mut i: usize = 0;
    while i < n
        invariant
            n == instances@.len(),
            i <= n,
            forall|a: int, b: int|
                0 <= a < b < n && a < i ==> (#[trigger] instances@[a].id@).take(
                    spec_min_len(k as int, instances@[a].id@.len() as int),
                ) != (#[trigger] instances@[b].id@).take(
                    spec_min_len(k as int, instances@[b].id@.len() as int),
                ),
        decreases n - i,
    {
        let mut j: usize = i + 1;
        while j < n
            invariant
                n == instances@.len(),
                i < n,
                i < j <= n,
                forall|b: int|
                    i < b < j ==> (#[trigger] instances@[b].id@).take(
                        spec_min_len(k as int, instances@[b].id@.len() as int),
                    ) != instances@[i as int].id@.take(
                        spec_min_len(k as int, instances@[i as int].id@.len() as int),
                    ),
            decreases n - j,
        {
            let a = prefix_chars(instances[i].id.as_str(), k);
            let b = prefix_chars(instances[j].id.as_str(), k);
            if str_eq(a, b) {
                return false;
            }
            j = j + 1;
        }
        i = i + 1;
    }
    true
}

/// A display length for identifier listings: starting at 8 characters and
/// growing in steps of 4, the first length at which all shown prefixes are
/// distinct, capped at the full identifier length; 8 for an empty list.
pub fn calculate_safe_id_length(instances: &Vec<InstanceDetails>) -> (r: usize)
    ensures
        instances@.len() == 0 ==> r == 8,
        8 <= r <= UUID_LENGTH && (r - 8) % 4 == 0,
        instances@.len() > 0 ==> (prefixes_distinct_at(instances@, r as int) || r == UUID_LENGTH),
        forall|l: int|
            8 <= l < r && (l - 8) % 4 == 0 ==> !prefixes_distinct_at(instances@, l),
{
    if instances.len() == 0 {
        return 8;
    }
    let mut length: usize = 8;
    loop
        invariant
            instances@.len() > 0,
            8 <= length <= UUID_LENGTH,
            (length - 8) % 4 == 0,
            forall|l: int|
                8 <= l < length && (l - 8) % 4 == 0 ==> !prefixes_distinct_at(instances@, l),
        decreases UUID_LENGTH - length,
    {
        if all_prefixes_distinct(instances, length) {
            return length;
        }
        if length >= UUID_LENGTH {
            return UUID_LENGTH;
        }
        length = length + 4;
    }
}

/// The minimum prefix length that tells a set of conflicting instances
/// apart, growing one character at a time from 1 and capped at the full
/// identifier length; 1 for a list of at most one.
pub fn suggest_min_length(instances: &Vec<InstanceDetails>) -> (r: usize)
    ensures
        instances@.len() <= 1 ==> r == 1,
        1 <= r <= UUID_LENGTH,
        instances@.len() > 1 ==> (prefixes_distinct_at(instances@, r as int) || r
            == UUID_LENGTH),
        forall|l: int| 1 <= l < r ==> !prefixes_distinct_at(instances@, l),
{
    if instances.len() <= 1 {
        return 1;
    }
    let mut length: usize = 1;
    loop
        invariant
            instances@.len() > 1,
            1 <= length <= UUID_LENGTH,
            forall|l: int| 1 <= l < length ==> !prefixes_distinct_at(instances@, l),
        decreases UUID_LENGTH - length,
    {
        if length >= UUID_LENGTH {
            return UUID_LENGTH;
        }
        if all_prefixes_distinct(instances, length) {
            return length;
        }
        length = length + 1;
    }
}

} // verus!
