//! Name-based exclusion: each pattern token is matched, anchored, against a
//! bare entry name.

use vstd::prelude::*;

verus! {

/// Whether the anchored regular expression `^token$` matches the whole of
/// `name`. A token that is not a valid regular expression matches nothing.
pub uninterp spec fn token_match_of(token: Seq<char>, name: Seq<char>) -> bool;

/// Relies on regex::Regex::new and regex::Regex::captures: whether the
/// anchored pattern `^token$` compiles and matches `name` depends on the two
/// strings alone. A token that fails to compile is treated as never matching.
#[verifier::external_body]
fn token_matches(token: &str, name: &str) -> (r: bool)
    ensures
        r == token_match_of(token@, name@),
{
    match regex::Regex::new(&format!("^{}$", token)) {
        Ok(pattern) => pattern.captures(name).is_some(),
        Err(_) => false,
    }
}

/// A name is excluded when at least one pattern token matches it whole.
pub open spec fn is_excluded(patterns: Seq<Seq<char>>, name: Seq<char>) -> bool {
    exists|i: int| 0 <= i < patterns.len() && token_match_of(patterns[i], name)
}

/// Decides exclusion of one entry name against the ordered pattern list.
pub fn name_excluded(patterns: &Vec<String>, name: &str) -> (r: bool)
    ensures
        r == is_excluded(patterns.deep_view(), name@),
{
    let mut k: usize = 0;
    while k < patterns.len()
        invariant
            k <= patterns@.len(),
            forall|j: int| 0 <= j < k ==> !token_match_of(#[trigger] patterns.deep_view()[j], name@),
        decreases patterns@.len() - k,
    {
        if token_matches(patterns[k].as_str(), name) {
            assert(token_match_of(patterns.deep_view()[k as int], name@));
            return true;
        }
        k += 1;
    }
    false
}

} // verus!
