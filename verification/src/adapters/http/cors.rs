//! Which cross-origin requests the HTTP layer admits.

use crate::text::{split_on, str_eq, trim};
use vstd::prelude::*;

verus! {

/// The cross-origin policy of the HTTP layer.
#[derive(Debug)]
pub enum CorsPolicy {
    /// No `CORS_ALLOW_ORIGINS` setting: a permissive policy.
    Permissive,
    /// `CORS_ALLOW_ORIGINS=*`: any origin.
    AnyOrigin,
    /// The listed origins, trimmed; a listed origin that is not a valid
    /// header value is left out by the HTTP layer.
    Origins(Vec<String>),
}

/// The policy the `CORS_ALLOW_ORIGINS` setting selects: unset is permissive,
/// `*` admits any origin, anything else is a comma-separated list of
/// origins, each trimmed of white space.
pub open spec fn cors_policy_spec(setting: Option<String>, r: CorsPolicy) -> bool {
    match setting {
        None => r is Permissive,
        Some(s) => if s@ == "*"@ {
            r is AnyOrigin
        } else {
            r matches CorsPolicy::Origins(list) && exists|pieces: Seq<Seq<char>>|
                {
                    &&& crate::text::is_split_of(pieces, s@, ',')
                    &&& pieces.len() == list@.len()
                    &&& forall|i: int|
                        0 <= i < pieces.len() ==> crate::text::is_trim_of(
                            (#[trigger] list@[i])@,
                            pieces[i],
                        )
                }
        },
    }
}

/// Reads the `CORS_ALLOW_ORIGINS` setting.
pub fn cors_policy(setting: &Option<String>) -> (r: CorsPolicy)
    ensures
        cors_policy_spec(*setting, r),
{
    match setting {
        None => CorsPolicy::Permissive,
        Some(s) => {
            if str_eq(s.as_str(), "*") {
                CorsPolicy::AnyOrigin
            } else {
                let pieces = split_on(s.as_str(), ',');
                let ghost views = pieces@.map_values(|p: String| p@);
                let mut origins: Vec<String> = Vec::new();
                let mut i: usize = 0;
                while i < pieces.len()
                    invariant
                        i <= pieces@.len(),
                        origins@.len() == i,
                        views == pieces@.map_values(|p: String| p@),
                        forall|j: int|
                            0 <= j < i ==> crate::text::is_trim_of(
                                (#[trigger] origins@[j])@,
                                views[j],
                            ),
                    decreases pieces@.len() - i,
                {
                    let t = trim(pieces[i].as_str());
                    origins.push(t);
                    i = i + 1;
                }
                CorsPolicy::Origins(origins)
            }
        },
    }
}

} // verus!
