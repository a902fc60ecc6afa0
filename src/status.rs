//! The rules of the status overview: which environments and databases it
//! shows, and how it labels each.

use vstd::prelude::*;
use crate::text::{decimal_spec, format_u32, split_on, split_spec};

verus! {

/// What a status filter selects: an environment, and optionally one database.
#[derive(Debug, Clone)]
pub struct StatusFilter {
    pub env: String,
    pub db: Option<String>,
}

/// `<env>` or `<env>/<database>`; anything with more pieces is refused.
pub open spec fn filter_spec(s: Seq<char>) -> Option<(Seq<char>, Option<Seq<char>>)> {
    let parts = split_spec(s, '/');
    if parts.len() == 1 {
        Some((parts[0], None))
    } else if parts.len() == 2 {
        Some((parts[0], Some(parts[1])))
    } else {
        None
    }
}

/// Reads a status filter.
pub fn parse_status_filter(s: &str) -> (r: Option<StatusFilter>)
    ensures
        match (r, filter_spec(s@)) {
            (Some(f), Some((e, d))) => f.env@ == e && match (f.db, d) {
                (Some(x), Some(y)) => x@ == y,
                (None, None) => true,
                _ => false,
            },
            (None, None) => true,
            _ => false,
        },
{
    let parts = split_on(s, '/');
    if parts.len() == 1 {
        Some(StatusFilter { env: parts[0].clone(), db: None })
    } else if parts.len() == 2 {
        Some(StatusFilter { env: parts[0].clone(), db: Some(parts[1].clone()) })
    } else {
        None
    }
}

/// The label of one database: `NOT EXIST` when its revision could not be
/// read, `NO VERSION` when it has no marker, `UP TO DATE` when it is at or
/// past the reference issue, else `#<number>`.
pub open spec fn status_label_spec(lookup: Option<Option<u32>>, reference: u32) -> Seq<char> {
    match lookup {
        None => "NOT EXIST"@,
        Some(None) => "NO VERSION"@,
        Some(Some(n)) => if n >= reference {
            "UP TO DATE"@
        } else {
            "#"@ + decimal_spec(n as nat)
        },
    }
}

/// Labels one database; `lookup` is `None` when its revision could not be
/// read, else the number of its marker, if it has one.
pub fn status_label(lookup: Option<Option<u32>>, reference: u32) -> (r: String)
    ensures
        r@ == status_label_spec(lookup, reference),
{
    match lookup {
        None => "NOT EXIST".to_string(),
        Some(None) => "NO VERSION".to_string(),
        Some(Some(n)) => {
            if n >= reference {
                "UP TO DATE".to_string()
            } else {
                "#".to_string().concat(format_u32(n).as_str())
            }
        },
    }
}

/// Whether the environment `name` is shown: the filtered one when there is a
/// filter, else every environment but the reference one.
pub open spec fn shows_env_spec(name: Seq<char>, filter_env: Option<Seq<char>>, reference_env: Seq<char>) -> bool {
    match filter_env {
        Some(f) => name == f,
        None => name != reference_env,
    }
}

pub fn shows_env(name: &str, filter_env: Option<&str>, reference_env: &str) -> (r: bool)
    ensures
        r == shows_env_spec(name@, match filter_env {
            Some(f) => Some(f@),
            None => None,
        }, reference_env@),
{
    match filter_env {
        Some(f) => crate::text::str_eq(name, f),
        None => !crate::text::str_eq(name, reference_env),
    }
}

} // verus!
