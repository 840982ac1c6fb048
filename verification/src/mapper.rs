//! The record mapper: the pure, total conversion of one raw source row into
//! one typed destination record. A row whose shape or types do not match its
//! entity kind is rejected, and a whole collection fails on its first bad row.

use vstd::prelude::*;

use crate::records::{
    ban_views, grid_vals, opt_view, post_views, row_vals, thread_views, Ban, BanV, Post, PostV,
    SqlValue, SqlValueV, Thread, ThreadV,
};

verus! {

/// Does `v` fit in a 32-bit signed integer?
pub open spec fn in_i32(v: int) -> bool {
    -0x8000_0000 <= v <= 0x7fff_ffff
}

/// An optional text cell: text or NULL; anything else is a shape mismatch.
pub open spec fn opt_text(v: SqlValueV) -> Option<Option<Seq<char>>> {
    match v {
        SqlValueV::Text(s) => Some(Some(s)),
        SqlValueV::Null => Some(None),
        _ => None,
    }
}

/// The thread record a raw row maps to, if its shape matches: columns
/// `tid, created, subject, deleted, hash`, with `deleted` a 0/1 integer.
pub open spec fn thread_from_row(row: Seq<SqlValueV>) -> Option<ThreadV> {
    if row.len() == 5 {
        match (row[0], row[1], row[2], row[3]) {
            (
                SqlValueV::Int(tid),
                SqlValueV::DateTime(created),
                SqlValueV::Text(subject),
                SqlValueV::Int(del),
            ) => {
                if in_i32(tid) && created.wf() && (del == 0 || del == 1) && opt_text(
                    row[4],
                ) is Some {
                    Some(
                        ThreadV {
                            tid,
                            created,
                            subject,
                            deleted: del == 1,
                            hash: opt_text(row[4]).unwrap(),
                        },
                    )
                } else {
                    None
                }
            },
            _ => None,
        }
    } else {
        None
    }
}

/// The post record a raw row maps to, if its shape matches: columns
/// `pid, tid, created, content, options, ipaddress, username, tripraw, image`.
pub open spec fn post_from_row(row: Seq<SqlValueV>) -> Option<PostV> {
    if row.len() == 9 {
        match (row[0], row[1], row[2], row[3], row[4], row[5]) {
            (
                SqlValueV::Int(pid),
                SqlValueV::Int(tid),
                SqlValueV::DateTime(created),
                SqlValueV::Text(content),
                SqlValueV::Text(options),
                SqlValueV::Text(ipaddress),
            ) => {
                if in_i32(pid) && in_i32(tid) && created.wf() && opt_text(row[6]) is Some
                    && opt_text(row[7]) is Some && opt_text(row[8]) is Some {
                    Some(
                        PostV {
                            pid,
                            tid,
                            created,
                            content,
                            options,
                            ipaddress,
                            username: opt_text(row[6]).unwrap(),
                            tripraw: opt_text(row[7]).unwrap(),
                            image: opt_text(row[8]).unwrap(),
                        },
                    )
                } else {
                    None
                }
            },
            _ => None,
        }
    } else {
        None
    }
}

/// The ban record a raw row maps to, if its shape matches: columns
/// `range, created, note`.
pub open spec fn ban_from_row(row: Seq<SqlValueV>) -> Option<BanV> {
    if row.len() == 3 {
        match (row[0], row[1]) {
            (SqlValueV::Text(range), SqlValueV::DateTime(created)) => {
                if created.wf() && opt_text(row[2]) is Some {
                    Some(BanV { range, created, note: opt_text(row[2]).unwrap() })
                } else {
                    None
                }
            },
            _ => None,
        }
    } else {
        None
    }
}

/// The thread records a raw collection maps to, if every row maps.
pub open spec fn threads_from_rows(rows: Seq<Seq<SqlValueV>>) -> Option<Seq<ThreadV>> {
    if forall|i: int| 0 <= i < rows.len() ==> thread_from_row(#[trigger] rows[i]) is Some {
        Some(Seq::new(rows.len(), |i: int| thread_from_row(rows[i]).unwrap()))
    } else {
        None
    }
}

/// The post records a raw collection maps to, if every row maps.
pub open spec fn posts_from_rows(rows: Seq<Seq<SqlValueV>>) -> Option<Seq<PostV>> {
    if forall|i: int| 0 <= i < rows.len() ==> post_from_row(#[trigger] rows[i]) is Some {
        Some(Seq::new(rows.len(), |i: int| post_from_row(rows[i]).unwrap()))
    } else {
        None
    }
}

/// The ban records a raw collection maps to, if every row maps.
pub open spec fn bans_from_rows(rows: Seq<Seq<SqlValueV>>) -> Option<Seq<BanV>> {
    if forall|i: int| 0 <= i < rows.len() ==> ban_from_row(#[trigger] rows[i]) is Some {
        Some(Seq::new(rows.len(), |i: int| ban_from_row(rows[i]).unwrap()))
    } else {
        None
    }
}

/// A mapped thread carries a timestamp within calendar bounds.
pub proof fn lemma_thread_row_wf(row: Seq<SqlValueV>)
    requires
        thread_from_row(row) is Some,
    ensures
        thread_from_row(row).unwrap().created.wf(),
{
}

/// A mapped post carries a timestamp within calendar bounds.
pub proof fn lemma_post_row_wf(row: Seq<SqlValueV>)
    requires
        post_from_row(row) is Some,
    ensures
        post_from_row(row).unwrap().created.wf(),
{
}

/// A mapped ban carries a timestamp within calendar bounds.
pub proof fn lemma_ban_row_wf(row: Seq<SqlValueV>)
    requires
        ban_from_row(row) is Some,
    ensures
        ban_from_row(row).unwrap().created.wf(),
{
}

/// Field fidelity for threads: a mapped record's fields are value-equal to
/// its source row's cells — same id, same timestamp, same subject, the 0/1
/// deleted flag, and the optional hash passed through untouched.
pub proof fn lemma_thread_field_fidelity(row: Seq<SqlValueV>, t: ThreadV)
    requires
        thread_from_row(row) == Some(t),
    ensures
        row.len() == 5,
        row[0] == SqlValueV::Int(t.tid),
        row[1] == SqlValueV::DateTime(t.created),
        row[2] == SqlValueV::Text(t.subject),
        row[3] == SqlValueV::Int(if t.deleted { 1int } else { 0int }),
        opt_text(row[4]) == Some(t.hash),
{
}

/// Field fidelity for posts: every cell is passed through value-equal, the
/// optional cells as optional values.
pub proof fn lemma_post_field_fidelity(row: Seq<SqlValueV>, p: PostV)
    requires
        post_from_row(row) == Some(p),
    ensures
        row.len() == 9,
        row[0] == SqlValueV::Int(p.pid),
        row[1] == SqlValueV::Int(p.tid),
        row[2] == SqlValueV::DateTime(p.created),
        row[3] == SqlValueV::Text(p.content),
        row[4] == SqlValueV::Text(p.options),
        row[5] == SqlValueV::Text(p.ipaddress),
        opt_text(row[6]) == Some(p.username),
        opt_text(row[7]) == Some(p.tripraw),
        opt_text(row[8]) == Some(p.image),
{
}

/// Field fidelity for bans: range, timestamp and optional note are passed
/// through value-equal.
pub proof fn lemma_ban_field_fidelity(row: Seq<SqlValueV>, b: BanV)
    requires
        ban_from_row(row) == Some(b),
    ensures
        row.len() == 3,
        row[0] == SqlValueV::Text(b.range),
        row[1] == SqlValueV::DateTime(b.created),
        opt_text(row[2]) == Some(b.note),
{
}

/// Extracts an optional text cell, or reports a shape mismatch.
fn take_opt_text(v: &SqlValue) -> (r: Result<Option<String>, ()>)
    ensures
        r matches Ok(o) ==> opt_text(v@) == Some(opt_view(o)),
        r is Err <==> opt_text(v@) is None,
{
    match v {
        SqlValue::Text(s) => Ok(Some(s.clone())),
        SqlValue::Null => Ok(None),
        _ => Err(()),
    }
}

/// Converts one raw row into a thread record, or rejects it.
pub fn map_thread(row: &Vec<SqlValue>) -> (r: Result<Thread, ()>)
    ensures
        r matches Ok(t) ==> thread_from_row(row_vals(row@)) == Some(t@),
        r is Err <==> thread_from_row(row_vals(row@)) is None,
{
    if row.len() != 5 {
        return Err(());
    }
    let tid: i32 = match &row[0] {
        SqlValue::Int(v) => {
            if *v < -0x8000_0000i64 || *v > 0x7fff_ffffi64 {
                return Err(());
            }
            *v as i32
        },
        _ => { return Err(()); },
    };
    let created = match &row[1] {
        SqlValue::DateTime(t) => {
            if !t.check_wf() {
                return Err(());
            }
            *t
        },
        _ => { return Err(()); },
    };
    let subject = match &row[2] {
        SqlValue::Text(s) => s.clone(),
        _ => { return Err(()); },
    };
    let deleted = match &row[3] {
        SqlValue::Int(v) => {
            if *v == 0 {
                false
            } else if *v == 1 {
                true
            } else {
                return Err(());
            }
        },
        _ => { return Err(()); },
    };
    let hash = match take_opt_text(&row[4]) {
        Ok(o) => o,
        Err(()) => { return Err(()); },
    };
    Ok(Thread { tid, created, subject, deleted, hash })
}

/// Converts one raw row into a post record, or rejects it.
pub fn map_post(row: &Vec<SqlValue>) -> (r: Result<Post, ()>)
    ensures
        r matches Ok(p) ==> post_from_row(row_vals(row@)) == Some(p@),
        r is Err <==> post_from_row(row_vals(row@)) is None,
{
    if row.len() != 9 {
        return Err(());
    }
    let pid: i32 = match &row[0] {
        SqlValue::Int(v) => {
            if *v < -0x8000_0000i64 || *v > 0x7fff_ffffi64 {
                return Err(());
            }
            *v as i32
        },
        _ => { return Err(()); },
    };
    let tid: i32 = match &row[1] {
        SqlValue::Int(v) => {
            if *v < -0x8000_0000i64 || *v > 0x7fff_ffffi64 {
                return Err(());
            }
            *v as i32
        },
        _ => { return Err(()); },
    };
    let created = match &row[2] {
        SqlValue::DateTime(t) => {
            if !t.check_wf() {
                return Err(());
            }
            *t
        },
        _ => { return Err(()); },
    };
    let content = match &row[3] {
        SqlValue::Text(s) => s.clone(),
        _ => { return Err(()); },
    };
    let options = match &row[4] {
        SqlValue::Text(s) => s.clone(),
        _ => { return Err(()); },
    };
    let ipaddress = match &row[5] {
        SqlValue::Text(s) => s.clone(),
        _ => { return Err(()); },
    };
    let username = match take_opt_text(&row[6]) {
        Ok(o) => o,
        Err(()) => { return Err(()); },
    };
    let tripraw = match take_opt_text(&row[7]) {
        Ok(o) => o,
        Err(()) => { return Err(()); },
    };
    let image = match take_opt_text(&row[8]) {
        Ok(o) => o,
        Err(()) => { return Err(()); },
    };
    Ok(Post { pid, tid, created, content, options, ipaddress, username, tripraw, image })
}

/// Converts one raw row into a ban record, or rejects it.
pub fn map_ban(row: &Vec<SqlValue>) -> (r: Result<Ban, ()>)
    ensures
        r matches Ok(b) ==> ban_from_row(row_vals(row@)) == Some(b@),
        r is Err <==> ban_from_row(row_vals(row@)) is None,
{
    if row.len() != 3 {
        return Err(());
    }
    let range = match &row[0] {
        SqlValue::Text(s) => s.clone(),
        _ => { return Err(()); },
    };
    let created = match &row[1] {
        SqlValue::DateTime(t) => {
            if !t.check_wf() {
                return Err(());
            }
            *t
        },
        _ => { return Err(()); },
    };
    let note = match take_opt_text(&row[2]) {
        Ok(o) => o,
        Err(()) => { return Err(()); },
    };
    Ok(Ban { range, created, note })
}

/// Converts a whole raw collection into thread records; on the first bad row
/// the batch fails with that row's index.
pub fn map_threads(rows: &Vec<Vec<SqlValue>>) -> (r: Result<Vec<Thread>, usize>)
    ensures
        r matches Ok(ts) ==> threads_from_rows(grid_vals(rows@)) == Some(thread_views(ts@))
            && ts@.len() == rows@.len(),
        r matches Err(i) ==> i < rows@.len() && thread_from_row(grid_vals(rows@)[i as int]) is None
            && (forall|j: int|
            0 <= j < i ==> thread_from_row(#[trigger] grid_vals(rows@)[j]) is Some)
            && threads_from_rows(grid_vals(rows@)) is None,
{
    let mut out: Vec<Thread> = Vec::new();
    let mut i: usize = 0;
    while i < rows.len()
        invariant
            i <= rows@.len(),
            out@.len() == i,
            forall|j: int|
                0 <= j < i ==> thread_from_row(#[trigger] grid_vals(rows@)[j]) == Some(
                    thread_views(out@)[j],
                ),
        decreases rows@.len() - i,
    {
        match map_thread(&rows[i]) {
            Ok(t) => {
                out.push(t);
            },
            Err(()) => {
                return Err(i);
            },
        }
        i += 1;
    }
    proof {
        assert(threads_from_rows(grid_vals(rows@)) == Some(thread_views(out@))) by {
            assert(forall|j: int|
                0 <= j < rows@.len() ==> thread_from_row(#[trigger] grid_vals(rows@)[j]) is Some);
            assert(Seq::new(
                grid_vals(rows@).len(),
                |j: int| thread_from_row(grid_vals(rows@)[j]).unwrap(),
            ) =~= thread_views(out@));
        }
    }
    Ok(out)
}

/// Converts a whole raw collection into post records; on the first bad row
/// the batch fails with that row's index.
pub fn map_posts(rows: &Vec<Vec<SqlValue>>) -> (r: Result<Vec<Post>, usize>)
    ensures
        r matches Ok(ps) ==> posts_from_rows(grid_vals(rows@)) == Some(post_views(ps@))
            && ps@.len() == rows@.len(),
        r matches Err(i) ==> i < rows@.len() && post_from_row(grid_vals(rows@)[i as int]) is None
            && (forall|j: int| 0 <= j < i ==> post_from_row(#[trigger] grid_vals(rows@)[j]) is Some)
            && posts_from_rows(grid_vals(rows@)) is None,
{
    let mut out: Vec<Post> = Vec::new();
    let mut i: usize = 0;
    while i < rows.len()
        invariant
            i <= rows@.len(),
            out@.len() == i,
            forall|j: int|
                0 <= j < i ==> post_from_row(#[trigger] grid_vals(rows@)[j]) == Some(
                    post_views(out@)[j],
                ),
        decreases rows@.len() - i,
    {
        match map_post(&rows[i]) {
            Ok(p) => {
                out.push(p);
            },
            Err(()) => {
                return Err(i);
            },
        }
        i += 1;
    }
    proof {
        assert(posts_from_rows(grid_vals(rows@)) == Some(post_views(out@))) by {
            assert(forall|j: int|
                0 <= j < rows@.len() ==> post_from_row(#[trigger] grid_vals(rows@)[j]) is Some);
            assert(Seq::new(
                grid_vals(rows@).len(),
                |j: int| post_from_row(grid_vals(rows@)[j]).unwrap(),
            ) =~= post_views(out@));
        }
    }
    Ok(out)
}

/// Converts a whole raw collection into ban records; on the first bad row
/// the batch fails with that row's index.
pub fn map_bans(rows: &Vec<Vec<SqlValue>>) -> (r: Result<Vec<Ban>, usize>)
    ensures
        r matches Ok(bs) ==> bans_from_rows(grid_vals(rows@)) == Some(ban_views(bs@))
            && bs@.len() == rows@.len(),
        r matches Err(i) ==> i < rows@.len() && ban_from_row(grid_vals(rows@)[i as int]) is None
            && (forall|j: int| 0 <= j < i ==> ban_from_row(#[trigger] grid_vals(rows@)[j]) is Some)
            && bans_from_rows(grid_vals(rows@)) is None,
{
    let mut out: Vec<Ban> = Vec::new();
    let mut i: usize = 0;
    while i < rows.len()
        invariant
            i <= rows@.len(),
            out@.len() == i,
            forall|j: int|
                0 <= j < i ==> ban_from_row(#[trigger] grid_vals(rows@)[j]) == Some(
                    ban_views(out@)[j],
                ),
        decreases rows@.len() - i,
    {
        match map_ban(&rows[i]) {
            Ok(b) => {
                out.push(b);
            },
            Err(()) => {
                return Err(i);
            },
        }
        i += 1;
    }
    proof {
        assert(bans_from_rows(grid_vals(rows@)) == Some(ban_views(out@))) by {
            assert(forall|j: int|
                0 <= j < rows@.len() ==> ban_from_row(#[trigger] grid_vals(rows@)[j]) is Some);
            assert(Seq::new(
                grid_vals(rows@).len(),
                |j: int| ban_from_row(grid_vals(rows@)[j]).unwrap(),
            ) =~= ban_views(out@));
        }
    }
    Ok(out)
}

} // verus!
