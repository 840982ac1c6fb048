//! The destination store: the schema provisioner and the destination writer.
//!
//! The store itself is a SQLite database reached through rusqlite. The
//! library sees its three tables as sequences of record values, named by
//! uninterpreted spec functions, and reaches the database only through the
//! trusted wrappers below; everything around those calls is verified.
//!
//! The provisioner does not only run its `IF NOT EXISTS` DDL: it reads the
//! schema back and rejects a destination whose objects differ from its own,
//! so the insert contracts' duplicate-key claims rest on constraints that
//! are known to be present. The writer loads each entity kind inside one
//! transaction: a kind's table is either extended by the whole batch or, on
//! any failure, left unchanged.

use vstd::prelude::*;

use crate::records::{ban_views, post_views, thread_views, Ban, BanV, Post, PostV, Thread, ThreadV};
use crate::timefmt::{format_timestamp, timestamp_text};
use crate::{EntityKind, MigrateError};

verus! {

#[verifier::external_type_specification]
#[verifier::external_body]
pub struct ExConnection(rusqlite::Connection);

#[verifier::external_type_specification]
#[verifier::external_body]
pub struct ExSqliteError(rusqlite::Error);

/// The rows of the destination `threads` table, in insertion order; empty
/// while the table does not exist.
pub uninterp spec fn db_threads(c: rusqlite::Connection) -> Seq<ThreadV>;

/// The rows of the destination `posts` table, in insertion order; empty
/// while the table does not exist.
pub uninterp spec fn db_posts(c: rusqlite::Connection) -> Seq<PostV>;

/// The rows of the destination `bans` table, in insertion order; empty
/// while the table does not exist.
pub uninterp spec fn db_bans(c: rusqlite::Connection) -> Seq<BanV>;

/// Whether the destination carries exactly this library's schema: the three
/// tables and the posts index with exactly the provisioner's definitions
/// (`tid` and `pid` primary keys, unique `range`), and no trigger, view or
/// temporary object that could divert or amplify an insert.
pub uninterp spec fn db_schema_ready(c: rusqlite::Connection) -> bool;

/// Whether the connection has a transaction open.
pub uninterp spec fn db_in_txn(c: rusqlite::Connection) -> bool;

/// The destination's contents and schema state, as one snapshot value.
pub ghost struct DbSnapshot {
    pub threads: Seq<ThreadV>,
    pub posts: Seq<PostV>,
    pub bans: Seq<BanV>,
    pub schema_ready: bool,
}

/// The snapshot taken when the open transaction began; meaningful only
/// while `db_in_txn` holds.
pub uninterp spec fn db_txn_saved(c: rusqlite::Connection) -> DbSnapshot;

/// The destination's current state as a snapshot.
pub open spec fn db_now(c: rusqlite::Connection) -> DbSnapshot {
    DbSnapshot {
        threads: db_threads(c),
        posts: db_posts(c),
        bans: db_bans(c),
        schema_ready: db_schema_ready(c),
    }
}

/// No row of `rows` already carries thread id `tid`.
pub open spec fn tid_fresh(rows: Seq<ThreadV>, tid: int) -> bool {
    forall|i: int| 0 <= i < rows.len() ==> (#[trigger] rows[i]).tid != tid
}

/// No row of `rows` already carries post id `pid`.
pub open spec fn pid_fresh(rows: Seq<PostV>, pid: int) -> bool {
    forall|i: int| 0 <= i < rows.len() ==> (#[trigger] rows[i]).pid != pid
}

/// No row of `rows` already carries ban range `range`.
pub open spec fn range_fresh(rows: Seq<BanV>, range: Seq<char>) -> bool {
    forall|i: int| 0 <= i < rows.len() ==> (#[trigger] rows[i]).range != range
}

/// All thread ids in `rows` are distinct.
pub open spec fn tids_unique(rows: Seq<ThreadV>) -> bool {
    forall|i: int, j: int| 0 <= i < j < rows.len() ==> rows[i].tid != rows[j].tid
}

/// All post ids in `rows` are distinct.
pub open spec fn pids_unique(rows: Seq<PostV>) -> bool {
    forall|i: int, j: int| 0 <= i < j < rows.len() ==> rows[i].pid != rows[j].pid
}

/// All ban ranges in `rows` are distinct.
pub open spec fn ranges_unique(rows: Seq<BanV>) -> bool {
    forall|i: int, j: int| 0 <= i < j < rows.len() ==> rows[i].range != rows[j].range
}

/// Relies on rusqlite's `Connection::execute_batch` running the DDL below:
/// `CREATE TABLE IF NOT EXISTS` and `CREATE INDEX IF NOT EXISTS` create the
/// missing objects, leave existing ones as they are, and never touch rows.
/// Alone this cannot promise a ready schema: a table of the same name may
/// pre-exist with another definition; `exec_check_schema` decides that.
#[verifier::external_body]
fn exec_create_tables(conn: &mut rusqlite::Connection) -> (r: Result<(), rusqlite::Error>)
    ensures
        db_threads(*final(conn)) == db_threads(*old(conn)),
        db_posts(*final(conn)) == db_posts(*old(conn)),
        db_bans(*final(conn)) == db_bans(*old(conn)),
        db_schema_ready(*old(conn)) ==> db_schema_ready(*final(conn)),
{
    conn.execute_batch(
        "create table if not exists bans (range text unique, created text not null, note text); \
         create table if not exists threads (tid integer primary key, created text not null, \
         subject text not null, deleted int not null, hash text); \
         create table if not exists posts (pid integer primary key, tid integer not null, \
         created text not null, content text not null, options text not null, \
         ipaddress text not null, username text, tripraw text, image text); \
         create index if not exists idx_posts_tid on posts (tid);",
    )
}

/// Relies on rusqlite's `Connection::query_row` reading `sqlite_master` and
/// `sqlite_temp_master`: the query yields true exactly when the three
/// tables and the posts index are stored with this library's CREATE
/// statements (SQLite stores the executed text with `if not exists`
/// dropped and the leading keywords upper-cased) and no trigger, view or
/// temporary object exists. Such a destination carries exactly this
/// library's schema.
#[verifier::external_body]
fn exec_check_schema(conn: &mut rusqlite::Connection) -> (r: Result<bool, rusqlite::Error>)
    ensures
        db_threads(*final(conn)) == db_threads(*old(conn)),
        db_posts(*final(conn)) == db_posts(*old(conn)),
        db_bans(*final(conn)) == db_bans(*old(conn)),
        db_schema_ready(*final(conn)) == db_schema_ready(*old(conn)),
        db_in_txn(*final(conn)) == db_in_txn(*old(conn)),
        db_txn_saved(*final(conn)) == db_txn_saved(*old(conn)),
        r == Ok::<bool, rusqlite::Error>(true) ==> db_schema_ready(*final(conn)),
{
    conn.query_row(
        "select (select count(*) from sqlite_master where \
         (name = 'threads' and sql = 'CREATE TABLE threads (tid integer primary key, \
         created text not null, subject text not null, deleted int not null, hash text)') or \
         (name = 'posts' and sql = 'CREATE TABLE posts (pid integer primary key, \
         tid integer not null, created text not null, content text not null, \
         options text not null, ipaddress text not null, username text, tripraw text, \
         image text)') or \
         (name = 'bans' and sql = 'CREATE TABLE bans (range text unique, \
         created text not null, note text)') or \
         (name = 'idx_posts_tid' and sql = 'CREATE INDEX idx_posts_tid on posts (tid)')) = 4 \
         and (select count(*) from sqlite_master where type in ('trigger', 'view')) = 0 \
         and (select count(*) from sqlite_temp_master) = 0",
        [],
        |row| row.get(0),
    )
}

/// Relies on rusqlite's `Connection::execute_batch` running `BEGIN`: a new
/// transaction starts, snapshotting the current contents; with one already
/// open the statement fails and nothing changes.
#[verifier::external_body]
fn exec_begin(conn: &mut rusqlite::Connection) -> (r: Result<(), rusqlite::Error>)
    ensures
        r is Ok ==> !db_in_txn(*old(conn)) && db_in_txn(*final(conn)) && db_txn_saved(
            *final(conn),
        ) == db_now(*old(conn)) && db_now(*final(conn)) == db_now(*old(conn)),
        r is Err ==> db_now(*final(conn)) == db_now(*old(conn)) && db_in_txn(*final(conn))
            == db_in_txn(*old(conn)) && db_txn_saved(*final(conn)) == db_txn_saved(*old(conn)),
{
    conn.execute_batch("begin")
}

/// Relies on rusqlite's `Connection::execute_batch` running `COMMIT`: on
/// success the open transaction ends with its writes kept; on failure the
/// transaction either stays open, unchanged, or SQLite has already rolled
/// it back to its start snapshot.
#[verifier::external_body]
fn exec_commit(conn: &mut rusqlite::Connection) -> (r: Result<(), rusqlite::Error>)
    requires
        db_in_txn(*old(conn)),
    ensures
        r is Ok ==> !db_in_txn(*final(conn)) && db_now(*final(conn)) == db_now(*old(conn)),
        r is Err ==> (db_in_txn(*final(conn)) && db_now(*final(conn)) == db_now(*old(conn))
            && db_txn_saved(*final(conn)) == db_txn_saved(*old(conn))) || (!db_in_txn(
            *final(conn),
        ) && db_now(*final(conn)) == db_txn_saved(*old(conn))),
{
    conn.execute_batch("commit")
}

/// Relies on rusqlite's `Connection::execute_batch` running `ROLLBACK`: an
/// open transaction is undone back to its start snapshot (with `&mut`
/// access no statement can still be running, so this cannot be refused);
/// without one the statement fails and nothing changes.
#[verifier::external_body]
fn exec_rollback(conn: &mut rusqlite::Connection) -> (r: Result<(), rusqlite::Error>)
    ensures
        db_in_txn(*old(conn)) ==> !db_in_txn(*final(conn)) && db_now(*final(conn)) == db_txn_saved(
            *old(conn),
        ),
        !db_in_txn(*old(conn)) ==> db_now(*final(conn)) == db_now(*old(conn)) && db_in_txn(
            *final(conn),
        ) == db_in_txn(*old(conn)) && db_txn_saved(*final(conn)) == db_txn_saved(*old(conn)),
{
    conn.execute_batch("rollback")
}

/// Relies on rusqlite's `Connection::execute` running one parameterized
/// INSERT into `threads`, on a destination carrying this library's schema:
/// on success exactly that row is appended; a duplicate primary key `tid`
/// is rejected; a failed statement changes nothing, except that SQLite may
/// answer a gross failure (out of space, I/O) by rolling an open
/// transaction back to its start snapshot.
#[verifier::external_body]
fn exec_insert_thread(conn: &mut rusqlite::Connection, t: &Thread, created: &str) -> (r: Result<
    (),
    rusqlite::Error,
>)
    requires
        db_schema_ready(*old(conn)),
        t.created.wf(),
        created@ == timestamp_text(t.created),
    ensures
        r is Ok ==> db_threads(*final(conn)) == db_threads(*old(conn)).push(t@) && tid_fresh(
            db_threads(*old(conn)),
            t@.tid,
        ) && db_posts(*final(conn)) == db_posts(*old(conn)) && db_bans(*final(conn)) == db_bans(
            *old(conn),
        ) && db_schema_ready(*final(conn)) && db_in_txn(*final(conn)) == db_in_txn(*old(conn))
            && db_txn_saved(*final(conn)) == db_txn_saved(*old(conn)),
        !tid_fresh(db_threads(*old(conn)), t@.tid) ==> r is Err,
        r is Err ==> (db_now(*final(conn)) == db_now(*old(conn)) && db_in_txn(*final(conn))
            == db_in_txn(*old(conn)) && db_txn_saved(*final(conn)) == db_txn_saved(*old(conn)))
            || (db_in_txn(*old(conn)) && !db_in_txn(*final(conn)) && db_now(*final(conn))
            == db_txn_saved(*old(conn))),
{
    conn.execute(
        "insert into threads (tid, created, subject, deleted, hash) values (?1, ?2, ?3, ?4, ?5)",
        (t.tid, created, &t.subject, t.deleted, &t.hash),
    ).map(|_| ())
}

/// Relies on rusqlite's `Connection::execute` running one parameterized
/// INSERT into `posts`, on a destination carrying this library's schema;
/// behaves as the thread insert, keyed on the primary key `pid`.
#[verifier::external_body]
fn exec_insert_post(conn: &mut rusqlite::Connection, p: &Post, created: &str) -> (r: Result<
    (),
    rusqlite::Error,
>)
    requires
        db_schema_ready(*old(conn)),
        p.created.wf(),
        created@ == timestamp_text(p.created),
    ensures
        r is Ok ==> db_posts(*final(conn)) == db_posts(*old(conn)).push(p@) && pid_fresh(
            db_posts(*old(conn)),
            p@.pid,
        ) && db_threads(*final(conn)) == db_threads(*old(conn)) && db_bans(*final(conn))
            == db_bans(*old(conn)) && db_schema_ready(*final(conn)) && db_in_txn(*final(conn))
            == db_in_txn(*old(conn)) && db_txn_saved(*final(conn)) == db_txn_saved(*old(conn)),
        !pid_fresh(db_posts(*old(conn)), p@.pid) ==> r is Err,
        r is Err ==> (db_now(*final(conn)) == db_now(*old(conn)) && db_in_txn(*final(conn))
            == db_in_txn(*old(conn)) && db_txn_saved(*final(conn)) == db_txn_saved(*old(conn)))
            || (db_in_txn(*old(conn)) && !db_in_txn(*final(conn)) && db_now(*final(conn))
            == db_txn_saved(*old(conn))),
{
    conn.execute(
        "insert into posts (pid, tid, created, content, options, ipaddress, username, tripraw, \
         image) values (?1, ?2, ?3, ?4, ?5, ?6, ?7, ?8, ?9)",
        (p.pid, p.tid, created, &p.content, &p.options, &p.ipaddress, &p.username, &p.tripraw,
        &p.image),
    ).map(|_| ())
}

/// Relies on rusqlite's `Connection::execute` running one parameterized
/// INSERT into `bans`, on a destination carrying this library's schema;
/// behaves as the thread insert, keyed on the unique `range` text.
#[verifier::external_body]
fn exec_insert_ban(conn: &mut rusqlite::Connection, b: &Ban, created: &str) -> (r: Result<
    (),
    rusqlite::Error,
>)
    requires
        db_schema_ready(*old(conn)),
        b.created.wf(),
        created@ == timestamp_text(b.created),
    ensures
        r is Ok ==> db_bans(*final(conn)) == db_bans(*old(conn)).push(b@) && range_fresh(
            db_bans(*old(conn)),
            b@.range,
        ) && db_threads(*final(conn)) == db_threads(*old(conn)) && db_posts(*final(conn))
            == db_posts(*old(conn)) && db_schema_ready(*final(conn)) && db_in_txn(*final(conn))
            == db_in_txn(*old(conn)) && db_txn_saved(*final(conn)) == db_txn_saved(*old(conn)),
        !range_fresh(db_bans(*old(conn)), b@.range) ==> r is Err,
        r is Err ==> (db_now(*final(conn)) == db_now(*old(conn)) && db_in_txn(*final(conn))
            == db_in_txn(*old(conn)) && db_txn_saved(*final(conn)) == db_txn_saved(*old(conn)))
            || (db_in_txn(*old(conn)) && !db_in_txn(*final(conn)) && db_now(*final(conn))
            == db_txn_saved(*old(conn))),
{
    conn.execute(
        "insert into bans (range, created, note) values (?1, ?2, ?3)",
        (&b.range, created, &b.note),
    ).map(|_| ())
}

/// The schema provisioner: runs the `IF NOT EXISTS` DDL for the three
/// tables and the posts index, then reads the schema back and accepts only
/// a destination that now carries exactly this library's definitions.
/// Existing objects and rows are left exactly as they are, so a second run
/// against the same destination changes nothing; tables that pre-exist
/// under these names with any other definition are rejected.
pub fn create_tables(conn: &mut rusqlite::Connection) -> (r: Result<(), MigrateError>)
    ensures
        db_threads(*final(conn)) == db_threads(*old(conn)),
        db_posts(*final(conn)) == db_posts(*old(conn)),
        db_bans(*final(conn)) == db_bans(*old(conn)),
        r is Ok ==> db_schema_ready(*final(conn)),
        db_schema_ready(*old(conn)) ==> db_schema_ready(*final(conn)),
        r is Err ==> r == Err::<(), MigrateError>(MigrateError::Schema),
{
    match exec_create_tables(conn) {
        Ok(()) => {},
        Err(_) => {
            return Err(MigrateError::Schema);
        },
    }
    match exec_check_schema(conn) {
        Ok(true) => Ok(()),
        Ok(false) => Err(MigrateError::Schema),
        Err(_) => Err(MigrateError::Schema),
    }
}

/// The destination writer for threads: inserts every record, in order, one
/// prepared insert per record, all inside one transaction — the write unit
/// of this entity kind. On success the table holds exactly the old rows
/// followed by the batch, and every batch id was new; a duplicate id in the
/// destination or in the batch makes the load fail. On failure the
/// transaction is rolled back and the table is exactly as before: nothing
/// is kept partially and nothing is overwritten.
pub fn insert_threads(conn: &mut rusqlite::Connection, threads: &Vec<Thread>) -> (r: Result<
    (),
    MigrateError,
>)
    requires
        db_schema_ready(*old(conn)),
        forall|i: int| 0 <= i < threads@.len() ==> (#[trigger] threads@[i]).created.wf(),
    ensures
        db_posts(*final(conn)) == db_posts(*old(conn)),
        db_bans(*final(conn)) == db_bans(*old(conn)),
        db_schema_ready(*final(conn)),
        db_in_txn(*final(conn)) == db_in_txn(*old(conn)),
        r is Ok ==> db_threads(*final(conn)) == db_threads(*old(conn)) + thread_views(threads@),
        r is Ok ==> (forall|i: int|
            0 <= i < threads@.len() ==> tid_fresh(
                db_threads(*old(conn)),
                #[trigger] thread_views(threads@)[i].tid,
            )) && tids_unique(thread_views(threads@)),
        r is Err ==> r == Err::<(), MigrateError>(MigrateError::Load { kind: EntityKind::Threads })
            && db_threads(*final(conn)) == db_threads(*old(conn)),
        !(forall|i: int|
            0 <= i < threads@.len() ==> tid_fresh(
                db_threads(*old(conn)),
                #[trigger] thread_views(threads@)[i].tid,
            )) ==> r is Err,
        !tids_unique(thread_views(threads@)) ==> r is Err,
{
    let ghost snap0 = db_now(*conn);
    let ghost d0 = db_threads(*conn);
    let ghost p0 = db_posts(*conn);
    let ghost b0 = db_bans(*conn);
    let ghost tv = thread_views(threads@);
    match exec_begin(conn) {
        Ok(()) => {},
        Err(_) => {
            return Err(MigrateError::Load { kind: EntityKind::Threads });
        },
    }
    let mut i: usize = 0;
    while i < threads.len()
        invariant
            i <= threads@.len(),
            tv == thread_views(threads@),
            snap0 == db_now(*old(conn)),
            d0 == db_threads(*old(conn)),
            p0 == db_posts(*old(conn)),
            b0 == db_bans(*old(conn)),
            db_schema_ready(*old(conn)),
            !db_in_txn(*old(conn)),
            forall|j: int| 0 <= j < threads@.len() ==> (#[trigger] threads@[j]).created.wf(),
            db_in_txn(*conn),
            db_txn_saved(*conn) == snap0,
            db_threads(*conn) == d0 + tv.take(i as int),
            db_posts(*conn) == p0,
            db_bans(*conn) == b0,
            db_schema_ready(*conn),
            forall|j: int| 0 <= j < i ==> tid_fresh(d0, (#[trigger] tv[j]).tid),
            tids_unique(tv.take(i as int)),
        decreases threads@.len() - i,
    {
        let t = &threads[i];
        let created = format_timestamp(&t.created);
        let ghost before = db_threads(*conn);
        match exec_insert_thread(conn, t, created.as_str()) {
            Ok(()) => {
                proof {
                    assert(t@ == tv[i as int]);
                    assert(tv.take(i + 1 as int) =~= tv.take(i as int).push(tv[i as int]));
                    assert(db_threads(*conn) =~= d0 + tv.take(i + 1 as int));
                    assert forall|k: int| 0 <= k < d0.len() implies (#[trigger] d0[k]).tid != tv[
                        i as int
                    ].tid by {
                        assert(before[k] == d0[k]);
                    }
                    assert forall|j: int| 0 <= j < i implies (#[trigger] tv[j]).tid != tv[
                        i as int
                    ].tid by {
                        assert(before[d0.len() + j] == tv[j]);
                    }
                    assert(tids_unique(tv.take(i + 1 as int)));
                }
            },
            Err(_) => {
                let _ = exec_rollback(conn);
                proof {
                    assert(db_now(*conn) == snap0);
                }
                return Err(MigrateError::Load { kind: EntityKind::Threads });
            },
        }
        i += 1;
    }
    proof {
        assert(tv.take(threads@.len() as int) =~= tv);
    }
    match exec_commit(conn) {
        Ok(()) => Ok(()),
        Err(_) => {
            let _ = exec_rollback(conn);
            proof {
                assert(db_now(*conn) == snap0);
            }
            Err(MigrateError::Load { kind: EntityKind::Threads })
        },
    }
}

/// The destination writer for posts; behaves as `insert_threads`, keyed on
/// `pid`, one transaction for the whole batch. A post's `tid` is not
/// checked against the threads table: dangling references load like any
/// other row.
pub fn insert_posts(conn: &mut rusqlite::Connection, posts: &Vec<Post>) -> (r: Result<
    (),
    MigrateError,
>)
    requires
        db_schema_ready(*old(conn)),
        forall|i: int| 0 <= i < posts@.len() ==> (#[trigger] posts@[i]).created.wf(),
    ensures
        db_threads(*final(conn)) == db_threads(*old(conn)),
        db_bans(*final(conn)) == db_bans(*old(conn)),
        db_schema_ready(*final(conn)),
        db_in_txn(*final(conn)) == db_in_txn(*old(conn)),
        r is Ok ==> db_posts(*final(conn)) == db_posts(*old(conn)) + post_views(posts@),
        r is Ok ==> (forall|i: int|
            0 <= i < posts@.len() ==> pid_fresh(
                db_posts(*old(conn)),
                #[trigger] post_views(posts@)[i].pid,
            )) && pids_unique(post_views(posts@)),
        r is Err ==> r == Err::<(), MigrateError>(MigrateError::Load { kind: EntityKind::Posts })
            && db_posts(*final(conn)) == db_posts(*old(conn)),
        !(forall|i: int|
            0 <= i < posts@.len() ==> pid_fresh(
                db_posts(*old(conn)),
                #[trigger] post_views(posts@)[i].pid,
            )) ==> r is Err,
        !pids_unique(post_views(posts@)) ==> r is Err,
{
    let ghost snap0 = db_now(*conn);
    let ghost d0 = db_posts(*conn);
    let ghost t0 = db_threads(*conn);
    let ghost b0 = db_bans(*conn);
    let ghost pv = post_views(posts@);
    match exec_begin(conn) {
        Ok(()) => {},
        Err(_) => {
            return Err(MigrateError::Load { kind: EntityKind::Posts });
        },
    }
    let mut i: usize = 0;
    while i < posts.len()
        invariant
            i <= posts@.len(),
            pv == post_views(posts@),
            snap0 == db_now(*old(conn)),
            d0 == db_posts(*old(conn)),
            t0 == db_threads(*old(conn)),
            b0 == db_bans(*old(conn)),
            db_schema_ready(*old(conn)),
            !db_in_txn(*old(conn)),
            forall|j: int| 0 <= j < posts@.len() ==> (#[trigger] posts@[j]).created.wf(),
            db_in_txn(*conn),
            db_txn_saved(*conn) == snap0,
            db_posts(*conn) == d0 + pv.take(i as int),
            db_threads(*conn) == t0,
            db_bans(*conn) == b0,
            db_schema_ready(*conn),
            forall|j: int| 0 <= j < i ==> pid_fresh(d0, (#[trigger] pv[j]).pid),
            pids_unique(pv.take(i as int)),
        decreases posts@.len() - i,
    {
        let p = &posts[i];
        let created = format_timestamp(&p.created);
        let ghost before = db_posts(*conn);
        match exec_insert_post(conn, p, created.as_str()) {
            Ok(()) => {
                proof {
                    assert(p@ == pv[i as int]);
                    assert(pv.take(i + 1 as int) =~= pv.take(i as int).push(pv[i as int]));
                    assert(db_posts(*conn) =~= d0 + pv.take(i + 1 as int));
                    assert forall|k: int| 0 <= k < d0.len() implies (#[trigger] d0[k]).pid != pv[
                        i as int
                    ].pid by {
                        assert(before[k] == d0[k]);
                    }
                    assert forall|j: int| 0 <= j < i implies (#[trigger] pv[j]).pid != pv[
                        i as int
                    ].pid by {
                        assert(before[d0.len() + j] == pv[j]);
                    }
                    assert(pids_unique(pv.take(i + 1 as int)));
                }
            },
            Err(_) => {
                let _ = exec_rollback(conn);
                proof {
                    assert(db_now(*conn) == snap0);
                }
                return Err(MigrateError::Load { kind: EntityKind::Posts });
            },
        }
        i += 1;
    }
    proof {
        assert(pv.take(posts@.len() as int) =~= pv);
    }
    match exec_commit(conn) {
        Ok(()) => Ok(()),
        Err(_) => {
            let _ = exec_rollback(conn);
            proof {
                assert(db_now(*conn) == snap0);
            }
            Err(MigrateError::Load { kind: EntityKind::Posts })
        },
    }
}

/// The destination writer for bans; behaves as `insert_threads`, keyed on
/// the unique `range` text, one transaction for the whole batch.
pub fn insert_bans(conn: &mut rusqlite::Connection, bans: &Vec<Ban>) -> (r: Result<
    (),
    MigrateError,
>)
    requires
        db_schema_ready(*old(conn)),
        forall|i: int| 0 <= i < bans@.len() ==> (#[trigger] bans@[i]).created.wf(),
    ensures
        db_threads(*final(conn)) == db_threads(*old(conn)),
        db_posts(*final(conn)) == db_posts(*old(conn)),
        db_schema_ready(*final(conn)),
        db_in_txn(*final(conn)) == db_in_txn(*old(conn)),
        r is Ok ==> db_bans(*final(conn)) == db_bans(*old(conn)) + ban_views(bans@),
        r is Ok ==> (forall|i: int|
            0 <= i < bans@.len() ==> range_fresh(
                db_bans(*old(conn)),
                #[trigger] ban_views(bans@)[i].range,
            )) && ranges_unique(ban_views(bans@)),
        r is Err ==> r == Err::<(), MigrateError>(MigrateError::Load { kind: EntityKind::Bans })
            && db_bans(*final(conn)) == db_bans(*old(conn)),
        !(forall|i: int|
            0 <= i < bans@.len() ==> range_fresh(
                db_bans(*old(conn)),
                #[trigger] ban_views(bans@)[i].range,
            )) ==> r is Err,
        !ranges_unique(ban_views(bans@)) ==> r is Err,
{
    let ghost snap0 = db_now(*conn);
    let ghost d0 = db_bans(*conn);
    let ghost t0 = db_threads(*conn);
    let ghost p0 = db_posts(*conn);
    let ghost bv = ban_views(bans@);
    match exec_begin(conn) {
        Ok(()) => {},
        Err(_) => {
            return Err(MigrateError::Load { kind: EntityKind::Bans });
        },
    }
    let mut i: usize = 0;
    while i < bans.len()
        invariant
            i <= bans@.len(),
            bv == ban_views(bans@),
            snap0 == db_now(*old(conn)),
            d0 == db_bans(*old(conn)),
            t0 == db_threads(*old(conn)),
            p0 == db_posts(*old(conn)),
            db_schema_ready(*old(conn)),
            !db_in_txn(*old(conn)),
            forall|j: int| 0 <= j < bans@.len() ==> (#[trigger] bans@[j]).created.wf(),
            db_in_txn(*conn),
            db_txn_saved(*conn) == snap0,
            db_bans(*conn) == d0 + bv.take(i as int),
            db_threads(*conn) == t0,
            db_posts(*conn) == p0,
            db_schema_ready(*conn),
            forall|j: int| 0 <= j < i ==> range_fresh(d0, (#[trigger] bv[j]).range),
            ranges_unique(bv.take(i as int)),
        decreases bans@.len() - i,
    {
        let b = &bans[i];
        let created = format_timestamp(&b.created);
        let ghost before = db_bans(*conn);
        match exec_insert_ban(conn, b, created.as_str()) {
            Ok(()) => {
                proof {
                    assert(b@ == bv[i as int]);
                    assert(bv.take(i + 1 as int) =~= bv.take(i as int).push(bv[i as int]));
                    assert(db_bans(*conn) =~= d0 + bv.take(i + 1 as int));
                    assert forall|k: int| 0 <= k < d0.len() implies (#[trigger] d0[k]).range != bv[
                        i as int
                    ].range by {
                        assert(before[k] == d0[k]);
                    }
                    assert forall|j: int| 0 <= j < i implies (#[trigger] bv[j]).range != bv[
                        i as int
                    ].range by {
                        assert(before[d0.len() + j] == bv[j]);
                    }
                    assert(ranges_unique(bv.take(i + 1 as int)));
                }
            },
            Err(_) => {
                let _ = exec_rollback(conn);
                proof {
                    assert(db_now(*conn) == snap0);
                }
                return Err(MigrateError::Load { kind: EntityKind::Bans });
            },
        }
        i += 1;
    }
    proof {
        assert(bv.take(bans@.len() as int) =~= bv);
    }
    match exec_commit(conn) {
        Ok(()) => Ok(()),
        Err(_) => {
            let _ = exec_rollback(conn);
            proof {
                assert(db_now(*conn) == snap0);
            }
            Err(MigrateError::Load { kind: EntityKind::Bans })
        },
    }
}

/// Thread ids stay unique through a load: a destination whose thread ids
/// are all distinct keeps them distinct whether the load succeeded (old
/// rows followed by a fresh, duplicate-free batch) or failed (table
/// unchanged), exactly the two outcomes `insert_threads` allows.
pub proof fn lemma_load_keeps_tids_unique(
    before: Seq<ThreadV>,
    batch: Seq<ThreadV>,
    after: Seq<ThreadV>,
)
    requires
        tids_unique(before),
        after == before || (after == before + batch && (forall|i: int|
            0 <= i < batch.len() ==> tid_fresh(before, (#[trigger] batch[i]).tid))
            && tids_unique(batch)),
    ensures
        tids_unique(after),
{
    if after != before {
        assert forall|i: int, j: int| 0 <= i < j < after.len() implies after[i].tid
            != after[j].tid by {
            if j < before.len() {
                assert(after[i] == before[i] && after[j] == before[j]);
            } else if i < before.len() {
                assert(after[j] == batch[j - before.len()]);
                assert(tid_fresh(before, batch[j - before.len()].tid));
            } else {
                assert(after[i] == batch[i - before.len()] && after[j] == batch[j - before.len()]);
            }
        }
    }
}

/// Post ids stay unique through a load; the post counterpart of
/// `lemma_load_keeps_tids_unique`.
pub proof fn lemma_load_keeps_pids_unique(
    before: Seq<PostV>,
    batch: Seq<PostV>,
    after: Seq<PostV>,
)
    requires
        pids_unique(before),
        after == before || (after == before + batch && (forall|i: int|
            0 <= i < batch.len() ==> pid_fresh(before, (#[trigger] batch[i]).pid))
            && pids_unique(batch)),
    ensures
        pids_unique(after),
{
    if after != before {
        assert forall|i: int, j: int| 0 <= i < j < after.len() implies after[i].pid
            != after[j].pid by {
            if j < before.len() {
                assert(after[i] == before[i] && after[j] == before[j]);
            } else if i < before.len() {
                assert(after[j] == batch[j - before.len()]);
                assert(pid_fresh(before, batch[j - before.len()].pid));
            } else {
                assert(after[i] == batch[i - before.len()] && after[j] == batch[j - before.len()]);
            }
        }
    }
}

/// Ban ranges stay unique through a load; the ban counterpart of
/// `lemma_load_keeps_tids_unique`.
pub proof fn lemma_load_keeps_ranges_unique(
    before: Seq<BanV>,
    batch: Seq<BanV>,
    after: Seq<BanV>,
)
    requires
        ranges_unique(before),
        after == before || (after == before + batch && (forall|i: int|
            0 <= i < batch.len() ==> range_fresh(before, (#[trigger] batch[i]).range))
            && ranges_unique(batch)),
    ensures
        ranges_unique(after),
{
    if after != before {
        assert forall|i: int, j: int| 0 <= i < j < after.len() implies after[i].range
            != after[j].range by {
            if j < before.len() {
                assert(after[i] == before[i] && after[j] == before[j]);
            } else if i < before.len() {
                assert(after[j] == batch[j - before.len()]);
                assert(range_fresh(before, batch[j - before.len()].range));
            } else {
                assert(after[i] == batch[i - before.len()] && after[j] == batch[j - before.len()]);
            }
        }
    }
}

} // verus!
