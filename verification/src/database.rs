//! What the bot decides from what the database answers.
use vstd::prelude::*;
use crate::text::owned;

verus! {

/// Why a query of the database failed, with what the database said.
#[derive(Debug)]
pub enum DatabaseError {
    /// No connection could be had from the pool.
    PoolError(String),
    /// The query itself failed.
    QueryError(String),
}

/// The prefix of legacy commands in a guild that has none of its own.
pub const DEFAULT_PREFIX: &'static str = ";";

/// The prefix of legacy commands in a guild: its own where the guild has a
/// row with a prefix, else the default. `found` is what the query gave: the
/// guild's row, if there is one, or the database's failure, in which case
/// the default applies too.
pub fn guild_prefix_or_default(found: Result<Option<Option<String>>, DatabaseError>) -> (p: String)
    ensures
        p@ == (match found {
            Ok(Some(Some(x))) => x@,
            _ => DEFAULT_PREFIX@,
        }),
{
    match found {
        Ok(Some(Some(data))) => data,
        _ => owned(DEFAULT_PREFIX),
    }
}

} // verus!
