//! The store handle and the two operations on the alias table: `resolve`,
//! in a read transaction, and `create`, in a write transaction.
use crate::model::{
    after_commit, after_lookup, check_record, create_spec, resolve_spec, valid_alias, valid_record, AliasRecord, Lookup,
    Resolution, StoreError,
};
use crate::storage::{
    begin_read_txn, begin_write_txn, close_env, commit_write, create_table, open_env, read_get, reads_from,
    snapshot, staged, table_of, write_get, write_put, writes_to,
};
use heed::types::Str;
use vstd::prelude::*;

verus! {

/// The name of the store's one table.
pub const TABLE_NAME: &'static str = "requests";

/// The number of named tables the environment is opened with.
pub const MAX_TABLES: u32 = 1;

/// Owns the store's environment and the handle of its alias table.
pub struct Store {
    env: heed::Env,
    db: heed::Database<Str, Str>,
}

impl Store {
    #[verifier::type_invariant]
    spec fn table_in_env(&self) -> bool {
        table_of(self.db, self.env)
    }

    /// `t` is a read transaction of this store.
    pub closed spec fn owns_read(&self, t: heed::RoTxn) -> bool {
        reads_from(t, self.env)
    }

    /// `t` is a write transaction of this store.
    pub closed spec fn owns_write(&self, t: heed::RwTxn) -> bool {
        writes_to(t, self.env)
    }

    /// The alias table in the snapshot of read transaction `t`.
    pub closed spec fn read_view(&self, t: heed::RoTxn) -> Map<Seq<char>, Seq<char>> {
        snapshot(t, self.db)
    }

    /// The alias table as write transaction `t` sees it.
    pub closed spec fn write_view(&self, t: heed::RwTxn) -> Map<Seq<char>, Seq<char>> {
        staged(t, self.db)
    }

    /// Creates or opens the store in directory `path`, with its alias table.
    pub fn open(path: &str) -> (r: Result<Store, StoreError>)
        ensures
            r is Err ==> r == Err::<Store, StoreError>(StoreError::StorageInitError),
    {
        let env = match open_env(path, MAX_TABLES) {
            Ok(env) => env,
            Err(_) => return Err(StoreError::StorageInitError),
        };
        proof {
            reveal_strlit("requests");
            assert(!TABLE_NAME@.contains('\0')) by {
                if TABLE_NAME@.contains('\0') {
                    let i = choose|i: int| 0 <= i < TABLE_NAME@.len() && TABLE_NAME@[i] == '\0';
                    assert(TABLE_NAME@[i] != '\0');
                }
            }
        }
        let db = match create_table(&env, TABLE_NAME) {
            Ok(db) => db,
            Err(_) => return Err(StoreError::StorageInitError),
        };
        Ok(Store { env, db })
    }

    /// Begins a read transaction: a snapshot of the table as last committed.
    pub fn begin_read(&self) -> (r: Result<heed::RoTxn<'_>, StoreError>)
        ensures
            r matches Ok(t) ==> self.owns_read(t),
            r is Err ==> r == Err::<heed::RoTxn<'_>, StoreError>(StoreError::StorageUnavailable),
    {
        match begin_read_txn(&self.env) {
            Ok(t) => Ok(t),
            Err(_) => Err(StoreError::StorageUnavailable),
        }
    }

    /// Begins a write transaction, waiting while another one is open.
    pub fn begin_write(&self) -> (r: Result<heed::RwTxn<'_, '_>, StoreError>)
        ensures
            r matches Ok(t) ==> self.owns_write(t),
            r is Err ==> r == Err::<heed::RwTxn<'_, '_>, StoreError>(StoreError::StorageUnavailable),
    {
        match begin_write_txn(&self.env) {
            Ok(t) => Ok(t),
            Err(_) => Err(StoreError::StorageUnavailable),
        }
    }

    /// Looks `alias` up in the snapshot of read transaction `t`. An alias that
    /// cannot be a key is not found without reading the store.
    pub fn resolve_in(&self, t: &heed::RoTxn, alias: &str) -> (r: Result<Resolution, StoreError>)
        requires
            self.owns_read(*t),
        ensures
            r matches Ok(res) ==> res@ == resolve_spec(self.read_view(*t), alias@),
            !valid_alias(alias@) ==> r == Ok::<Resolution, StoreError>(Resolution::NotFound),
            r is Err ==> r == Err::<Resolution, StoreError>(StoreError::StorageUnavailable),
    {
        proof {
            use_type_invariant(self);
        }
        if alias.is_empty() || alias.as_bytes().len() > crate::model::MAX_ALIAS_BYTES {
            return Ok(Resolution::NotFound);
        }
        match read_get(&self.db, t, alias) {
            Ok(Some(d)) => Ok(Resolution::Found(d)),
            Ok(None) => Ok(Resolution::NotFound),
            Err(_) => Err(StoreError::StorageUnavailable),
        }
    }

    /// Resolves `alias` in a read transaction of its own, which ends before
    /// the result is returned. A miss is `NotFound`, not an error.
    pub fn resolve(&self, alias: &str) -> (r: Result<Resolution, StoreError>)
        ensures
            valid_alias(alias@) ==> (r matches Ok(res) ==> exists|t: heed::RoTxn|
                #[trigger] self.owns_read(t) && res@ == resolve_spec(self.read_view(t), alias@)),
            !valid_alias(alias@) ==> r == Ok::<Resolution, StoreError>(Resolution::NotFound),
            r is Err ==> r == Err::<Resolution, StoreError>(StoreError::StorageUnavailable),
    {
        if alias.is_empty() || alias.as_bytes().len() > crate::model::MAX_ALIAS_BYTES {
            return Ok(Resolution::NotFound);
        }
        let t = self.begin_read()?;
        let r = self.resolve_in(&t, alias);
        proof {
            assert(self.owns_read(t));
        }
        r
    }

    /// Adds the record to the table of write transaction `t`, unless the alias
    /// is present there already.
    pub fn create_in(&self, t: &mut heed::RwTxn, alias: &str, destination: &str) -> (r: Result<AliasRecord, StoreError>)
        requires
            self.owns_write(*old(t)),
            valid_record(alias@, destination@),
        ensures
            r matches Ok(rec) ==> rec@ == (alias@, destination@) && create_spec(
                self.write_view(*old(t)),
                alias@,
                destination@,
            ) == Ok::<Map<Seq<char>, Seq<char>>, StoreError>(self.write_view(*final(t))),
            self.write_view(*old(t)).contains_key(alias@) ==> r is Err,
            r == Err::<AliasRecord, StoreError>(StoreError::AliasTaken) ==> self.write_view(
                *old(t),
            ).contains_key(alias@) && *final(t) == *old(t),
            r is Err ==> r == Err::<AliasRecord, StoreError>(StoreError::AliasTaken) || r == Err::<
                AliasRecord,
                StoreError,
            >(StoreError::StorageUnavailable),
    {
        proof {
            use_type_invariant(self);
        }
        let lookup = match write_get(&self.db, t, alias) {
            Ok(Some(_)) => Lookup::Present,
            Ok(None) => Lookup::Absent,
            Err(_) => Lookup::Failed,
        };
        if let Some(e) = after_lookup(lookup) {
            return Err(e);
        }
        match write_put(&self.db, t, alias, destination) {
            Ok(()) => Ok(AliasRecord { alias: alias.to_string(), destination: destination.to_string() }),
            Err(_) => Err(StoreError::StorageUnavailable),
        }
    }

    /// Creates the record in a write transaction of its own: the record is
    /// checked first, then the alias is looked up and, if absent, stored, and
    /// the transaction is committed. On any failure the transaction is dropped,
    /// which aborts it, so nothing of it is applied.
    pub fn create(&self, alias: &str, destination: &str) -> (r: Result<AliasRecord, StoreError>)
        ensures
            r == Err::<AliasRecord, StoreError>(StoreError::InvalidRecord) <==> !valid_record(
                alias@,
                destination@,
            ),
            r matches Ok(rec) ==> rec@ == (alias@, destination@),
            r is Ok ==> exists|t0: heed::RwTxn, t1: heed::RwTxn|
                #[trigger] self.owns_write(t0) && create_spec(
                    self.write_view(t0),
                    alias@,
                    destination@,
                ) == Ok::<Map<Seq<char>, Seq<char>>, StoreError>(#[trigger] self.write_view(t1)),
            r == Err::<AliasRecord, StoreError>(StoreError::AliasTaken) ==> exists|t: heed::RwTxn|
                #[trigger] self.owns_write(t) && self.write_view(t).contains_key(alias@),
            r != Err::<AliasRecord, StoreError>(StoreError::StorageInitError),
    {
        if let Err(e) = check_record(alias, destination) {
            return Err(e);
        }
        let mut t = match self.begin_write() {
            Ok(t) => t,
            Err(e) => return Err(e),
        };
        let ghost t0 = t;
        let created = self.create_in(&mut t, alias, destination);
        proof {
            assert(self.owns_write(t0));
        }
        match created {
            Ok(rec) => {
                let committed = commit_write(t).is_ok();
                after_commit(rec, committed)
            },
            Err(e) => Err(e),
        }
    }

    /// Closes the store. It takes the handle by value, so no transaction of
    /// it can still be open.
    pub fn close(self) {
        close_env(self.env);
    }
}

} // verus!
