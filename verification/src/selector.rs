//! Choosing one session among the active ones: the first whose owning
//! application identifier, case-folded, contains the case-folded preference
//! string. When none matches, the caller falls back to the provider's own
//! current session.

use vstd::prelude::*;
use crate::text::{contains_str, lower_of, lowercase, seq_contains_sub};

verus! {

/// One session's owning-application identifier matches the preference:
/// the identifier was readable and, case-folded, contains the case-folded
/// preference as a substring.
pub open spec fn id_matches(id: Option<Seq<char>>, pref: Seq<char>) -> bool {
    id matches Some(s) && seq_contains_sub(lower_of(s), lower_of(pref))
}

/// Select the preferred session among `ids`, the owning-application
/// identifiers of the active sessions in provider order (`None` marks one
/// whose identifier could not be read, which never matches).
///
/// Returns the index of the first matching session; `None` when no session
/// matches, in which case the caller falls back to the provider's own notion
/// of the current session.
pub fn select_index(ids: &Vec<Option<String>>, pref: &str) -> (r: Option<usize>)
    ensures
        match r {
            Some(i) => 0 <= i < ids.len() && id_matches(ids.deep_view()[i as int], pref@)
                && forall|j: int| 0 <= j < i ==> !id_matches(ids.deep_view()[j], pref@),
            None => forall|j: int|
                0 <= j < ids.len() ==> !id_matches(ids.deep_view()[j], pref@),
        },
{
    let pref_lower = lowercase(pref);
    let mut i: usize = 0;
    while i < ids.len()
        invariant
            0 <= i <= ids.len(),
            pref_lower@ == lower_of(pref@),
            forall|j: int| 0 <= j < i ==> !id_matches(ids.deep_view()[j], pref@),
        decreases ids.len() - i,
    {
        match &ids[i] {
            Some(id) => {
                let id_lower = lowercase(id.as_str());
                if contains_str(id_lower.as_str(), pref_lower.as_str()) {
                    return Some(i);
                }
            },
            None => {},
        }
        i = i + 1;
    }
    None
}

/// The preference string the monitor and the dispatcher run with: the
/// configured value when one was stored, "spotify" otherwise.
pub fn preference_or_default(configured: Option<String>) -> (r: String)
    ensures
        r@ == match configured {
            Option::Some(s) => s@,
            Option::None => "spotify"@,
        },
{
    match configured {
        Some(s) => s,
        None => "spotify".to_owned(),
    }
}

/// The thumbnail post-processing strategy is chosen by the owning
/// application alone: the fixed logo-crop is applied exactly when the
/// case-folded identifier contains "spotify", the square-pad otherwise.
pub open spec fn wants_logo_crop(app_id: Option<Seq<char>>) -> bool {
    app_id matches Some(s) && seq_contains_sub(lower_of(s), "spotify"@)
}

/// Decide the thumbnail strategy for a session's owning application.
pub fn choose_logo_crop(app_id: &Option<String>) -> (r: bool)
    ensures
        r == wants_logo_crop(app_id.deep_view()),
{
    match app_id {
        Some(s) => {
            let s_lower = lowercase(s.as_str());
            contains_str(s_lower.as_str(), "spotify")
        },
        None => false,
    }
}

} // verus!
