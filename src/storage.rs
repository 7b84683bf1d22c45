//! The store's primitives, from heed: the environment, the alias table and
//! its transactions. Each item here is trusted: its contract restates what
//! heed 0.11's source shows.
use heed::types::Str;
use vstd::prelude::*;

verus! {

#[verifier::external_type_specification]
#[verifier::external_body]
pub struct ExEnv(heed::Env);

#[verifier::external_type_specification]
#[verifier::external_body]
pub struct ExHeedError(heed::Error);

#[verifier::external_type_specification]
#[verifier::external_body]
pub struct ExStr(heed::types::Str);

#[verifier::external_type_specification]
#[verifier::external_body]
#[verifier::reject_recursive_types(KC)]
#[verifier::reject_recursive_types(DC)]
pub struct ExDatabase<KC, DC>(heed::Database<KC, DC>);

#[verifier::external_type_specification]
#[verifier::external_body]
#[verifier::reject_recursive_types(T)]
pub struct ExRoTxn<'e, T>(heed::RoTxn<'e, T>);

#[verifier::external_type_specification]
#[verifier::external_body]
#[verifier::reject_recursive_types(T)]
pub struct ExRwTxn<'e, 'p, T>(heed::RwTxn<'e, 'p, T>);

/// The table handle `db` was created in environment `e`.
pub uninterp spec fn table_of(db: heed::Database<Str, Str>, e: heed::Env) -> bool;

/// The read transaction `t` was begun in environment `e`.
pub uninterp spec fn reads_from(t: heed::RoTxn, e: heed::Env) -> bool;

/// The write transaction `t` was begun in environment `e`.
pub uninterp spec fn writes_to(t: heed::RwTxn, e: heed::Env) -> bool;

/// What table `db` holds in the snapshot of read transaction `t`.
pub uninterp spec fn snapshot(t: heed::RoTxn, db: heed::Database<Str, Str>) -> Map<Seq<char>, Seq<char>>;

/// What table `db` holds as write transaction `t` sees it: what was committed
/// when it began, and what it has put since.
pub uninterp spec fn staged(t: heed::RwTxn, db: heed::Database<Str, Str>) -> Map<Seq<char>, Seq<char>>;

/// Relies on heed's `Env::read_txn`: begins a read transaction in `env`.
#[verifier::external_body]
pub(crate) fn begin_read_txn(env: &heed::Env) -> (r: Result<heed::RoTxn<'_>, heed::Error>)
    ensures
        r matches Ok(t) ==> reads_from(t, *env),
{
    env.read_txn()
}

/// Relies on heed's `Env::write_txn`: begins a write transaction in `env`,
/// waiting while another write transaction of `env` is open (LMDB allows one
/// writer at a time; a thread that begins a second one while it holds one
/// waits for ever).
#[verifier::external_body]
pub(crate) fn begin_write_txn(env: &heed::Env) -> (r: Result<heed::RwTxn<'_, '_>, heed::Error>)
    ensures
        r matches Ok(t) ==> writes_to(t, *env),
{
    env.write_txn()
}

/// Relies on heed's `EnvOpenOptions::open`: creates or opens the environment
/// in directory `path`, with room for `max_tables` named tables.
#[verifier::external_body]
pub(crate) fn open_env(path: &str, max_tables: u32) -> (r: Result<heed::Env, heed::Error>) {
    heed::EnvOpenOptions::new().max_dbs(max_tables).open(path)
}

/// Relies on heed's `Env::create_database`: opens the table named `name` in
/// `env`, creating it if it is missing, in a write transaction of its own.
/// heed panics on a name that holds a NUL character.
#[verifier::external_body]
pub(crate) fn create_table(env: &heed::Env, name: &str) -> (r: Result<heed::Database<Str, Str>, heed::Error>)
    requires
        !name@.contains('\0'),
    ensures
        r matches Ok(db) ==> table_of(db, *env),
{
    env.create_database(Some(name))
}

/// Relies on heed's `Database::get` on a read transaction: the value stored
/// under `key` in the transaction's snapshot, if any. heed panics when the
/// transaction and the table belong to different environments.
#[verifier::external_body]
pub(crate) fn read_get(db: &heed::Database<Str, Str>, t: &heed::RoTxn, key: &str) -> (r: Result<Option<String>, heed::Error>)
    requires
        exists|e: heed::Env| reads_from(*t, e) && table_of(*db, e),
    ensures
        r matches Ok(Some(v)) ==> snapshot(*t, *db).contains_key(key@) && v@ == snapshot(*t, *db)[key@],
        r matches Ok(None) ==> !snapshot(*t, *db).contains_key(key@),
{
    db.get(t, key).map(|v| v.map(|s| s.to_string()))
}

/// Relies on heed's `Database::get` on a write transaction: the value that
/// the transaction sees under `key`, if any. heed panics when the transaction
/// and the table belong to different environments.
#[verifier::external_body]
pub(crate) fn write_get(db: &heed::Database<Str, Str>, t: &heed::RwTxn, key: &str) -> (r: Result<Option<String>, heed::Error>)
    requires
        exists|e: heed::Env| writes_to(*t, e) && table_of(*db, e),
    ensures
        r matches Ok(Some(v)) ==> staged(*t, *db).contains_key(key@) && v@ == staged(*t, *db)[key@],
        r matches Ok(None) ==> !staged(*t, *db).contains_key(key@),
{
    db.get(t, key).map(|v| v.map(|s| s.to_string()))
}

/// Relies on heed's `Database::put`: stages `value` under `key` in the write
/// transaction, replacing what was there. heed panics when the transaction
/// and the table belong to different environments.
#[verifier::external_body]
pub(crate) fn write_put(db: &heed::Database<Str, Str>, t: &mut heed::RwTxn, key: &str, value: &str) -> (r: Result<(), heed::Error>)
    requires
        exists|e: heed::Env| writes_to(*old(t), e) && table_of(*db, e),
    ensures
        r is Ok ==> staged(*final(t), *db) == staged(*old(t), *db).insert(key@, value@),
{
    db.put(t, key, value)
}

/// Relies on heed's `RwTxn::commit`: makes what the transaction staged
/// durable and visible to transactions begun after it; on an error nothing
/// of it is applied.
#[verifier::external_body]
pub(crate) fn commit_write(t: heed::RwTxn) -> (r: Result<(), heed::Error>) {
    t.commit()
}

/// Relies on heed's `Env::prepare_for_closing`: takes the environment out of
/// heed's registry of open environments, so that dropping the last handle to
/// it closes it and a later open of its directory opens it anew.
#[verifier::external_body]
pub(crate) fn close_env(env: heed::Env) {
    let _ = env.prepare_for_closing();
}

} // verus!
