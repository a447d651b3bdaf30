//! Find-or-create over the table of identity records.
//!
//! The store is reached in two round trips, a lookup and, when nothing was
//! found, an insert. The caller performs them; this module decides what
//! comes next from what each one returned.
use vstd::prelude::*;
use crate::error::KvError;

verus! {

/// A persisted identity record.
#[derive(Debug)]
pub struct KV {
    pub id: i32,
    pub uuid: Option<uuid::Uuid>,
    pub platform: String,
    pub identity: String,
    pub content: serde_json::Value,
}

/// The values written for a new record; the store fills in the rest.
#[derive(Debug)]
pub struct NewKV {
    pub platform: String,
    pub identity: String,
}

/// What the lookup by (platform, identity) came back with.
#[derive(Debug)]
pub enum Lookup {
    /// The first row holding the pair.
    Found(KV),
    /// No row holds the pair.
    NotFound,
    /// Any other failure of the store.
    Failed(diesel::result::Error),
}

/// What to do after the lookup.
#[derive(Debug)]
pub enum FindStep {
    /// The call is over with this result: the record and whether it was found.
    Done(Result<(KV, bool), KvError>),
    /// Insert this row and hand what the store returns to `find_or_create_after_insert`.
    Insert(NewKV),
}

/// The first row of `table` that holds the pair, in the order the store returns rows.
pub open spec fn first_match(table: Seq<KV>, platform: Seq<char>, identity: Seq<char>) -> Option<KV>
    decreases table.len(),
{
    if table.len() == 0 {
        None
    } else if table[0].platform@ == platform && table[0].identity@ == identity {
        Some(table[0])
    } else {
        first_match(table.drop_first(), platform, identity)
    }
}

/// What a lookup of the pair in `table` returns when the store does not fail.
pub open spec fn lookup_in(table: Seq<KV>, platform: Seq<char>, identity: Seq<char>) -> Lookup {
    match first_match(table, platform, identity) {
        Some(kv) => Lookup::Found(kv),
        None => Lookup::NotFound,
    }
}

/// `step` inserts a row with exactly this pair.
pub open spec fn inserts_pair(step: FindStep, platform: Seq<char>, identity: Seq<char>) -> bool {
    match step {
        FindStep::Insert(row) => row.platform@ == platform && row.identity@ == identity,
        FindStep::Done(_) => false,
    }
}

/// The step that follows a lookup of the pair.
pub open spec fn follows_lookup(
    platform: Seq<char>,
    identity: Seq<char>,
    lookup: Lookup,
    step: FindStep,
) -> bool {
    match lookup {
        Lookup::Found(kv) => step == FindStep::Done(Ok((kv, true))),
        Lookup::NotFound => inserts_pair(step, platform, identity),
        Lookup::Failed(e) => step == FindStep::Done(Err(KvError::Storage(e))),
    }
}

/// The result of the call once the insert has come back.
pub open spec fn result_after_insert(created: Result<KV, diesel::result::Error>) -> Result<(KV, bool), KvError> {
    match created {
        Ok(kv) => Ok((kv, false)),
        Err(e) => Err(KvError::Storage(e)),
    }
}

/// Decides on the lookup: a found row is returned as found, a missing one
/// is inserted, and any other failure ends the call without an insert.
pub fn decide_after_lookup(platform: &str, identity: &str, lookup: Lookup) -> (r: FindStep)
    ensures
        follows_lookup(platform@, identity@, lookup, r),
        lookup is Failed ==> r is Done,
{
    match lookup {
        Lookup::Found(kv) => FindStep::Done(Ok((kv, true))),
        Lookup::NotFound => FindStep::Insert(
            NewKV { platform: String::from_str(platform), identity: String::from_str(identity) },
        ),
        Lookup::Failed(e) => FindStep::Done(Err(KvError::Storage(e))),
    }
}

/// Relies on diesel's `diesel::result::Error::NotFound` variant, which the
/// store's `first` reports when no row matches, to tell a missing row from
/// other failures.
#[verifier::external_body]
fn classify_lookup(found: Result<KV, diesel::result::Error>) -> (r: Lookup)
    ensures
        match found {
            Ok(kv) => r == Lookup::Found(kv),
            Err(e) => r == Lookup::NotFound || r == Lookup::Failed(e),
        },
{
    match found {
        Ok(kv) => Lookup::Found(kv),
        Err(diesel::result::Error::NotFound) => Lookup::NotFound,
        Err(e) => Lookup::Failed(e),
    }
}

/// Takes what the store's lookup returned and decides the next step.
/// A row is returned as found; a failure either leads to the insert of the
/// pair (when it means that no row matched) or ends the call with that failure.
pub fn find_or_create_after_lookup(
    platform: &str,
    identity: &str,
    found: Result<KV, diesel::result::Error>,
) -> (r: FindStep)
    ensures
        match found {
            Ok(kv) => r == FindStep::Done(Ok((kv, true))),
            Err(e) => inserts_pair(r, platform@, identity@) || r == FindStep::Done(
                Err(KvError::Storage(e)),
            ),
        },
{
    let lookup = classify_lookup(found);
    decide_after_lookup(platform, identity, lookup)
}

/// Takes what the store's insert returned: the new row, reported as not
/// found before, or the store's failure unchanged.
pub fn find_or_create_after_insert(created: Result<KV, diesel::result::Error>) -> (r: Result<(KV, bool), KvError>)
    ensures
        r == result_after_insert(created),
{
    match created {
        Ok(kv) => Ok((kv, false)),
        Err(e) => Err(KvError::Storage(e)),
    }
}

proof fn lemma_first_match_after_append(
    table: Seq<KV>,
    platform: Seq<char>,
    identity: Seq<char>,
    created: KV,
    later: Seq<KV>,
)
    requires
        first_match(table, platform, identity) is None,
        created.platform@ == platform,
        created.identity@ == identity,
    ensures
        first_match(table.push(created) + later, platform, identity) == Some(created),
    decreases table.len(),
{
    let all = table.push(created) + later;
    if table.len() == 0 {
        assert(all[0] == created);
    } else {
        assert(all[0] == table[0]);
        assert(all.drop_first() =~= table.drop_first().push(created) + later);
        lemma_first_match_after_append(table.drop_first(), platform, identity, created, later);
    }
}

/// Find-or-create is idempotent: for a pair that no row holds, the first
/// call inserts exactly that pair and returns the created row as not found;
/// once the store holds that row, a later call, whatever rows were appended
/// after it, returns that same row (so the same id) as found.
pub proof fn lemma_find_or_create_idempotent(
    table: Seq<KV>,
    platform: Seq<char>,
    identity: Seq<char>,
    first: FindStep,
    created: KV,
    later: Seq<KV>,
    again: FindStep,
)
    requires
        first_match(table, platform, identity) is None,
        follows_lookup(platform, identity, lookup_in(table, platform, identity), first),
        created.platform@ == platform,
        created.identity@ == identity,
        follows_lookup(platform, identity, lookup_in(table.push(created) + later, platform, identity), again),
    ensures
        inserts_pair(first, platform, identity),
        result_after_insert(Ok(created)) == Ok::<(KV, bool), KvError>((created, false)),
        again == FindStep::Done(Ok((created, true))),
{
    lemma_first_match_after_append(table, platform, identity, created, later);
}

} // verus!
