//! The alias table as a mathematical map, the rules for a well-formed record,
//! and what `create` and `resolve` do to and read from the table.
use vstd::prelude::*;
use vstd::utf8::encode_utf8;

verus! {

/// The longest key, in bytes, that the store takes (LMDB's default key limit).
pub const MAX_ALIAS_BYTES: usize = 511;

/// Why an operation on the alias table did not succeed.
#[derive(Clone, Copy, Debug, PartialEq, Eq, Structural)]
pub enum StoreError {
    /// The alias or the destination is empty, or the alias is longer than the
    /// store's key limit; no transaction was begun.
    InvalidRecord,
    /// The alias already maps to a destination; nothing was written.
    AliasTaken,
    /// The environment or its table could not be opened.
    StorageInitError,
    /// A transaction could not be begun, or a read or write inside it failed.
    StorageUnavailable,
    /// The commit of a write transaction failed; nothing of it was applied.
    StorageCommitError,
}

/// An alias and the destination it resolves to.
#[derive(Clone, Debug, PartialEq, Eq)]
pub struct AliasRecord {
    pub alias: String,
    pub destination: String,
}

impl View for AliasRecord {
    type V = (Seq<char>, Seq<char>);

    open spec fn view(&self) -> (Seq<char>, Seq<char>) {
        (self.alias@, self.destination@)
    }
}

/// What `resolve` finds: the destination of the alias, or no redirect.
#[derive(Clone, Debug, PartialEq, Eq)]
pub enum Resolution {
    Found(String),
    NotFound,
}

impl View for Resolution {
    type V = Option<Seq<char>>;

    open spec fn view(&self) -> Option<Seq<char>> {
        match self {
            Resolution::Found(d) => Some(d@),
            Resolution::NotFound => None,
        }
    }
}

/// The number of bytes of the UTF-8 encoding of `s`.
pub open spec fn byte_len(s: Seq<char>) -> nat {
    encode_utf8(s).len()
}

/// An alias can be a key of the table: it is non-empty and fits the key limit.
pub open spec fn valid_alias(alias: Seq<char>) -> bool {
    alias.len() > 0 && byte_len(alias) <= MAX_ALIAS_BYTES
}

/// A record can be stored: its alias is valid and its destination non-empty.
pub open spec fn valid_record(alias: Seq<char>, destination: Seq<char>) -> bool {
    valid_alias(alias) && destination.len() > 0
}

/// What `resolve` answers against a table: the destination stored under a
/// valid alias, and no redirect for any other alias.
pub open spec fn resolve_spec(table: Map<Seq<char>, Seq<char>>, alias: Seq<char>) -> Option<Seq<char>> {
    if valid_alias(alias) && table.contains_key(alias) {
        Some(table[alias])
    } else {
        None
    }
}

/// What `create` does to a table: it rejects an invalid record, rejects an
/// alias that is present (never overwriting it), and otherwise adds the record.
pub open spec fn create_spec(
    table: Map<Seq<char>, Seq<char>>,
    alias: Seq<char>,
    destination: Seq<char>,
) -> Result<Map<Seq<char>, Seq<char>>, StoreError> {
    if !valid_record(alias, destination) {
        Err(StoreError::InvalidRecord)
    } else if table.contains_key(alias) {
        Err(StoreError::AliasTaken)
    } else {
        Ok(table.insert(alias, destination))
    }
}

/// Checks a record before any transaction is begun.
pub fn check_record(alias: &str, destination: &str) -> (r: Result<(), StoreError>)
    ensures
        r is Ok <==> valid_record(alias@, destination@),
        r is Err ==> r == Err::<(), StoreError>(StoreError::InvalidRecord),
{
    if alias.is_empty() || destination.is_empty() || alias.as_bytes().len() > MAX_ALIAS_BYTES {
        Err(StoreError::InvalidRecord)
    } else {
        Ok(())
    }
}

/// How the lookup of an alias inside a write transaction ended.
#[derive(Clone, Copy, Debug, PartialEq, Eq, Structural)]
pub enum Lookup {
    Present,
    Absent,
    Failed,
}

/// What `create` does once its alias has been looked up: `None` to go on and
/// store the record, or the error it stops with.
pub open spec fn after_lookup_spec(lookup: Lookup) -> Option<StoreError> {
    match lookup {
        Lookup::Present => Some(StoreError::AliasTaken),
        Lookup::Absent => None,
        Lookup::Failed => Some(StoreError::StorageUnavailable),
    }
}

/// Decides, from the lookup of the alias, whether `create` goes on.
pub fn after_lookup(lookup: Lookup) -> (r: Option<StoreError>)
    ensures
        r == after_lookup_spec(lookup),
{
    match lookup {
        Lookup::Present => Some(StoreError::AliasTaken),
        Lookup::Absent => None,
        Lookup::Failed => Some(StoreError::StorageUnavailable),
    }
}

/// What a staged record becomes once the commit of its write transaction was
/// tried: the record if the commit went through, and `StorageCommitError`
/// (nothing applied) if it did not.
pub fn after_commit(record: AliasRecord, committed: bool) -> (r: Result<AliasRecord, StoreError>)
    ensures
        committed ==> r == Ok::<AliasRecord, StoreError>(record),
        !committed ==> r == Err::<AliasRecord, StoreError>(StoreError::StorageCommitError),
{
    if committed {
        Ok(record)
    } else {
        Err(StoreError::StorageCommitError)
    }
}

/// A valid record whose alias is absent is created, and afterwards its alias
/// resolves to exactly its destination.
pub proof fn lemma_create_then_resolve(
    table: Map<Seq<char>, Seq<char>>,
    alias: Seq<char>,
    destination: Seq<char>,
)
    requires
        valid_record(alias, destination),
        !table.contains_key(alias),
    ensures
        create_spec(table, alias, destination) is Ok,
        resolve_spec(create_spec(table, alias, destination)->Ok_0, alias) == Some(destination),
{
}

/// An alias that was never created resolves to no redirect: a miss, not an
/// error.
pub proof fn lemma_unknown_alias_not_found(table: Map<Seq<char>, Seq<char>>, alias: Seq<char>)
    requires
        !table.contains_key(alias),
    ensures
        resolve_spec(table, alias) == None::<Seq<char>>,
{
}

/// A second create of a present alias, with whatever valid destination, is
/// rejected with `AliasTaken`, and the alias still resolves to the first one.
pub proof fn lemma_second_create_rejected(
    table: Map<Seq<char>, Seq<char>>,
    alias: Seq<char>,
    first: Seq<char>,
    second: Seq<char>,
)
    requires
        valid_record(alias, first),
        valid_record(alias, second),
        !table.contains_key(alias),
    ensures
        create_spec(table, alias, first) is Ok,
        create_spec(create_spec(table, alias, first)->Ok_0, alias, second) == Err::<
            Map<Seq<char>, Seq<char>>,
            StoreError,
        >(StoreError::AliasTaken),
        resolve_spec(create_spec(table, alias, first)->Ok_0, alias) == Some(first),
{
}

/// Two creates of one alias, run one after the other in either order (as the
/// single writer serializes them): the first succeeds, the second is rejected
/// with `AliasTaken`, and the alias then resolves to the first one's
/// destination. Either order gives one winner and one stable destination.
pub proof fn lemma_racing_creates_one_winner(
    table: Map<Seq<char>, Seq<char>>,
    alias: Seq<char>,
    d1: Seq<char>,
    d2: Seq<char>,
)
    requires
        valid_record(alias, d1),
        valid_record(alias, d2),
        !table.contains_key(alias),
    ensures
        ({
            let after1 = create_spec(table, alias, d1);
            &&& after1 is Ok
            &&& create_spec(after1->Ok_0, alias, d2) == Err::<
                Map<Seq<char>, Seq<char>>,
                StoreError,
            >(StoreError::AliasTaken)
            &&& resolve_spec(after1->Ok_0, alias) == Some(d1)
        }),
        ({
            let after2 = create_spec(table, alias, d2);
            &&& after2 is Ok
            &&& create_spec(after2->Ok_0, alias, d1) == Err::<
                Map<Seq<char>, Seq<char>>,
                StoreError,
            >(StoreError::AliasTaken)
            &&& resolve_spec(after2->Ok_0, alias) == Some(d2)
        }),
{
    lemma_second_create_rejected(table, alias, d1, d2);
    lemma_second_create_rejected(table, alias, d2, d1);
}

/// A record with an empty alias or an empty destination (or an alias over
/// the key limit) is rejected with `InvalidRecord` and leaves the table as it
/// was: an alias absent before still resolves to no redirect.
pub proof fn lemma_invalid_record_adds_nothing(
    table: Map<Seq<char>, Seq<char>>,
    alias: Seq<char>,
    destination: Seq<char>,
    probe: Seq<char>,
)
    requires
        !valid_record(alias, destination),
        !table.contains_key(probe),
    ensures
        create_spec(table, alias, destination) == Err::<Map<Seq<char>, Seq<char>>, StoreError>(
            StoreError::InvalidRecord,
        ),
        resolve_spec(table, probe) == None::<Seq<char>>,
{
}

} // verus!
