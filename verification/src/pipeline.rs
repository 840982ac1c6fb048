//! The pipeline orchestrator: provision the destination schema, then for
//! each entity kind in the order threads, posts, bans, convert the raw rows
//! and load the converted records, reporting per-kind counts. The first
//! failure aborts the run; collections already loaded stay loaded.

use vstd::prelude::*;

use crate::mapper::{
    ban_from_row, bans_from_rows, lemma_ban_row_wf, lemma_post_row_wf, lemma_thread_row_wf,
    map_bans, map_posts, map_threads, post_from_row, posts_from_rows, thread_from_row,
    threads_from_rows,
};
use crate::records::{grid_vals, BanV, PostV, SqlValue, ThreadV};
use crate::store::{
    create_tables, db_bans, db_posts, db_schema_ready, db_threads, insert_bans, insert_posts,
    insert_threads, pid_fresh, pids_unique, range_fresh, ranges_unique, tid_fresh, tids_unique,
};
use crate::{EntityKind, MigrateError};

verus! {

/// The three raw collections read from the source store, one sequence of
/// loosely typed rows per entity kind.
pub struct SourceRows {
    pub threads: Vec<Vec<SqlValue>>,
    pub posts: Vec<Vec<SqlValue>>,
    pub bans: Vec<Vec<SqlValue>>,
}

/// Per-kind counts of rows read from the source and records written to the
/// destination.
#[derive(Clone, Copy, Debug, PartialEq, Eq, Structural)]
pub struct MigrationReport {
    pub threads_read: usize,
    pub threads_written: usize,
    pub posts_read: usize,
    pub posts_written: usize,
    pub bans_read: usize,
    pub bans_written: usize,
}

/// The thread records the source rows convert to, if every row matches.
pub open spec fn mapped_threads(src: SourceRows) -> Option<Seq<ThreadV>> {
    threads_from_rows(grid_vals(src.threads@))
}

/// The post records the source rows convert to, if every row matches.
pub open spec fn mapped_posts(src: SourceRows) -> Option<Seq<PostV>> {
    posts_from_rows(grid_vals(src.posts@))
}

/// The ban records the source rows convert to, if every row matches.
pub open spec fn mapped_bans(src: SourceRows) -> Option<Seq<BanV>> {
    bans_from_rows(grid_vals(src.bans@))
}

/// Runs the whole migration against an open destination connection.
///
/// On success the destination schema exists, each table holds exactly its
/// old rows followed by the converted source rows of its kind, every
/// inserted key was new, and the report counts each kind's rows read and
/// written, both equal to the source count. On failure the error names the
/// phase, and the clauses below say exactly which tables were already
/// loaded: earlier kinds stay whole, the failing kind's own table is left
/// unchanged (each kind loads inside one transaction), later kinds are
/// untouched, and nothing is ever overwritten.
pub fn run_migration(conn: &mut rusqlite::Connection, src: &SourceRows) -> (r: Result<
    MigrationReport,
    MigrateError,
>)
    ensures
        r matches Ok(rep) ==> {
            &&& db_schema_ready(*final(conn))
            &&& mapped_threads(*src) matches Some(ts) && db_threads(*final(conn)) == db_threads(
                *old(conn),
            ) + ts && (forall|i: int|
                0 <= i < ts.len() ==> tid_fresh(db_threads(*old(conn)), (#[trigger] ts[i]).tid))
                && tids_unique(ts)
            &&& mapped_posts(*src) matches Some(ps) && db_posts(*final(conn)) == db_posts(
                *old(conn),
            ) + ps && (forall|i: int|
                0 <= i < ps.len() ==> pid_fresh(db_posts(*old(conn)), (#[trigger] ps[i]).pid))
                && pids_unique(ps)
            &&& mapped_bans(*src) matches Some(bs) && db_bans(*final(conn)) == db_bans(*old(conn))
                + bs && (forall|i: int|
                0 <= i < bs.len() ==> range_fresh(db_bans(*old(conn)), (#[trigger] bs[i]).range))
                && ranges_unique(bs)
            &&& db_threads(*final(conn)).len() == db_threads(*old(conn)).len()
                + src.threads@.len()
            &&& db_posts(*final(conn)).len() == db_posts(*old(conn)).len() + src.posts@.len()
            &&& db_bans(*final(conn)).len() == db_bans(*old(conn)).len() + src.bans@.len()
            &&& rep.threads_read == src.threads@.len() && rep.threads_written
                == src.threads@.len()
            &&& rep.posts_read == src.posts@.len() && rep.posts_written == src.posts@.len()
            &&& rep.bans_read == src.bans@.len() && rep.bans_written == src.bans@.len()
        },
        mapped_threads(*src) matches Some(ts) && ts.len() > 0 && !tid_fresh(
            db_threads(*old(conn)),
            ts[0].tid,
        ) ==> r is Err,
        mapped_posts(*src) matches Some(ps) && ps.len() > 0 && !pid_fresh(
            db_posts(*old(conn)),
            ps[0].pid,
        ) ==> r is Err,
        mapped_bans(*src) matches Some(bs) && bs.len() > 0 && !range_fresh(
            db_bans(*old(conn)),
            bs[0].range,
        ) ==> r is Err,
        r == Err::<MigrationReport, MigrateError>(MigrateError::Schema) ==> db_threads(
            *final(conn),
        ) == db_threads(*old(conn)) && db_posts(*final(conn)) == db_posts(*old(conn)) && db_bans(
            *final(conn),
        ) == db_bans(*old(conn)),
        r matches Err(MigrateError::BadRow { kind: EntityKind::Threads, index }) ==> {
            &&& db_threads(*final(conn)) == db_threads(*old(conn))
            &&& db_posts(*final(conn)) == db_posts(*old(conn))
            &&& db_bans(*final(conn)) == db_bans(*old(conn))
            &&& db_schema_ready(*final(conn))
            &&& index < src.threads@.len()
            &&& thread_from_row(grid_vals(src.threads@)[index as int]) is None
            &&& forall|j: int|
                0 <= j < index ==> thread_from_row(#[trigger] grid_vals(src.threads@)[j]) is Some
        },
        r matches Err(MigrateError::BadRow { kind: EntityKind::Posts, index }) ==> {
            &&& mapped_threads(*src) matches Some(ts) && db_threads(*final(conn)) == db_threads(
                *old(conn),
            ) + ts
            &&& db_posts(*final(conn)) == db_posts(*old(conn))
            &&& db_bans(*final(conn)) == db_bans(*old(conn))
            &&& db_schema_ready(*final(conn))
            &&& index < src.posts@.len()
            &&& post_from_row(grid_vals(src.posts@)[index as int]) is None
            &&& forall|j: int|
                0 <= j < index ==> post_from_row(#[trigger] grid_vals(src.posts@)[j]) is Some
        },
        r matches Err(MigrateError::BadRow { kind: EntityKind::Bans, index }) ==> {
            &&& mapped_threads(*src) matches Some(ts) && db_threads(*final(conn)) == db_threads(
                *old(conn),
            ) + ts
            &&& mapped_posts(*src) matches Some(ps) && db_posts(*final(conn)) == db_posts(
                *old(conn),
            ) + ps
            &&& db_bans(*final(conn)) == db_bans(*old(conn))
            &&& db_schema_ready(*final(conn))
            &&& index < src.bans@.len()
            &&& ban_from_row(grid_vals(src.bans@)[index as int]) is None
            &&& forall|j: int|
                0 <= j < index ==> ban_from_row(#[trigger] grid_vals(src.bans@)[j]) is Some
        },
        r == Err::<MigrationReport, MigrateError>(
            MigrateError::Load { kind: EntityKind::Threads },
        ) ==> {
            &&& db_threads(*final(conn)) == db_threads(*old(conn))
            &&& db_posts(*final(conn)) == db_posts(*old(conn))
            &&& db_bans(*final(conn)) == db_bans(*old(conn))
            &&& db_schema_ready(*final(conn))
        },
        r == Err::<MigrationReport, MigrateError>(MigrateError::Load { kind: EntityKind::Posts })
            ==> {
            &&& mapped_threads(*src) matches Some(ts) && db_threads(*final(conn)) == db_threads(
                *old(conn),
            ) + ts
            &&& db_posts(*final(conn)) == db_posts(*old(conn))
            &&& db_bans(*final(conn)) == db_bans(*old(conn))
            &&& db_schema_ready(*final(conn))
        },
        r == Err::<MigrationReport, MigrateError>(MigrateError::Load { kind: EntityKind::Bans })
            ==> {
            &&& mapped_threads(*src) matches Some(ts) && db_threads(*final(conn)) == db_threads(
                *old(conn),
            ) + ts
            &&& mapped_posts(*src) matches Some(ps) && db_posts(*final(conn)) == db_posts(
                *old(conn),
            ) + ps
            &&& db_bans(*final(conn)) == db_bans(*old(conn))
            &&& db_schema_ready(*final(conn))
        },
{
    match create_tables(conn) {
        Ok(()) => {},
        Err(e) => {
            return Err(e);
        },
    }
    let threads = match map_threads(&src.threads) {
        Ok(v) => v,
        Err(i) => {
            return Err(MigrateError::BadRow { kind: EntityKind::Threads, index: i });
        },
    };
    proof {
        assert forall|i: int| 0 <= i < threads@.len() implies (
        #[trigger] threads@[i]).created.wf() by {
            let rows = grid_vals(src.threads@);
            assert(thread_from_row(rows[i]) is Some);
            lemma_thread_row_wf(rows[i]);
            assert(crate::records::thread_views(threads@)[i] == thread_from_row(rows[i]).unwrap());
        }
    }
    match insert_threads(conn, &threads) {
        Ok(()) => {},
        Err(e) => {
            return Err(e);
        },
    }
    let posts = match map_posts(&src.posts) {
        Ok(v) => v,
        Err(i) => {
            return Err(MigrateError::BadRow { kind: EntityKind::Posts, index: i });
        },
    };
    proof {
        assert forall|i: int| 0 <= i < posts@.len() implies (#[trigger] posts@[i]).created.wf() by {
            let rows = grid_vals(src.posts@);
            assert(post_from_row(rows[i]) is Some);
            lemma_post_row_wf(rows[i]);
            assert(crate::records::post_views(posts@)[i] == post_from_row(rows[i]).unwrap());
        }
    }
    match insert_posts(conn, &posts) {
        Ok(()) => {},
        Err(e) => {
            return Err(e);
        },
    }
    let bans = match map_bans(&src.bans) {
        Ok(v) => v,
        Err(i) => {
            return Err(MigrateError::BadRow { kind: EntityKind::Bans, index: i });
        },
    };
    proof {
        assert forall|i: int| 0 <= i < bans@.len() implies (#[trigger] bans@[i]).created.wf() by {
            let rows = grid_vals(src.bans@);
            assert(ban_from_row(rows[i]) is Some);
            lemma_ban_row_wf(rows[i]);
            assert(crate::records::ban_views(bans@)[i] == ban_from_row(rows[i]).unwrap());
        }
    }
    match insert_bans(conn, &bans) {
        Ok(()) => {},
        Err(e) => {
            return Err(e);
        },
    }
    Ok(
        MigrationReport {
            threads_read: src.threads.len(),
            threads_written: threads.len(),
            posts_read: src.posts.len(),
            posts_written: posts.len(),
            bans_read: src.bans.len(),
            bans_written: bans.len(),
        },
    )
}

/// A destination that already ends with a non-empty batch of thread rows
/// cannot offer a fresh id to the batch's first row: loading the same batch
/// again must fail rather than silently duplicate.
pub proof fn lemma_thread_rerun_collides(existing: Seq<ThreadV>, batch: Seq<ThreadV>)
    requires
        batch.len() > 0,
    ensures
        !tid_fresh(existing + batch, batch[0].tid),
{
    assert((existing + batch)[existing.len() as int] == batch[0]);
}

/// The post counterpart of `lemma_thread_rerun_collides`, keyed on `pid`.
pub proof fn lemma_post_rerun_collides(existing: Seq<PostV>, batch: Seq<PostV>)
    requires
        batch.len() > 0,
    ensures
        !pid_fresh(existing + batch, batch[0].pid),
{
    assert((existing + batch)[existing.len() as int] == batch[0]);
}

/// The ban counterpart of `lemma_thread_rerun_collides`, keyed on `range`.
pub proof fn lemma_ban_rerun_collides(existing: Seq<BanV>, batch: Seq<BanV>)
    requires
        batch.len() > 0,
    ensures
        !range_fresh(existing + batch, batch[0].range),
{
    assert((existing + batch)[existing.len() as int] == batch[0]);
}

} // verus!
