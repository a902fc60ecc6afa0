//! Arguments of the migrate command that the library interprets.

use vstd::prelude::*;
use crate::text::{split_on, split_spec};

verus! {

/// A target written `<env>/<database>`.
#[derive(Debug, Clone)]
pub struct EnvDb {
    pub env: String,
    pub db: String,
}

/// What `<env>/<database>` denotes: exactly two `/`-separated pieces.
pub open spec fn env_db_spec(s: Seq<char>) -> Option<(Seq<char>, Seq<char>)> {
    let parts = split_spec(s, '/');
    if parts.len() == 2 {
        Some((parts[0], parts[1]))
    } else {
        None
    }
}

impl EnvDb {
    /// Reads `<env>/<database>`.
    pub fn parse(s: &str) -> (r: Result<EnvDb, String>)
        ensures
            match (r, env_db_spec(s@)) {
                (Ok(v), Some((e, d))) => v.env@ == e && v.db@ == d,
                (Err(m), None) => m@ == "Invalid value '"@ + s@ + "'. Use '<env>/<database>'"@,
                _ => false,
            },
    {
        let parts = split_on(s, '/');
        if parts.len() != 2 {
            let mut m = "Invalid value '".to_string();
            m.append(s);
            m.append("'. Use '<env>/<database>'");
            return Err(m);
        }
        Ok(EnvDb { env: parts[0].clone(), db: parts[1].clone() })
    }
}

/// The migrate command: the source database, the target, and the version.
#[derive(Debug, Clone)]
pub struct MigrateArgs {
    pub source_db: String,
    pub target: EnvDb,
    /// A version number, or `LATEST`.
    pub to: String,
}

} // verus!
