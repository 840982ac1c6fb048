use kland_migrate::mapper::{map_ban, map_post, map_thread, map_threads};
use kland_migrate::pipeline::{run_migration, SourceRows};
use kland_migrate::proxy::{image_reply, ImageReply};
use kland_migrate::records::{Ban, SqlValue, Thread, Timestamp};
use kland_migrate::store::{create_tables, insert_bans, insert_threads};
use kland_migrate::timefmt::{format_timestamp, format_u64};
use kland_migrate::{EntityKind, MigrateError};
use rusqlite::Connection;

fn ts() -> Timestamp {
    Timestamp { year: 2020, month: 1, day: 2, hour: 3, minute: 4, second: 5 }
}

fn thread_row(tid: i64, subject: &str) -> Vec<SqlValue> {
    vec![
        SqlValue::Int(tid),
        SqlValue::DateTime(ts()),
        SqlValue::Text(subject.to_string()),
        SqlValue::Int(0),
        SqlValue::Null,
    ]
}

fn post_row(pid: i64, tid: i64, content: &str) -> Vec<SqlValue> {
    vec![
        SqlValue::Int(pid),
        SqlValue::Int(tid),
        SqlValue::DateTime(ts()),
        SqlValue::Text(content.to_string()),
        SqlValue::Text("0".to_string()),
        SqlValue::Text("9.8.7.6".to_string()),
        SqlValue::Null,
        SqlValue::Null,
        SqlValue::Null,
    ]
}

fn ban_row(range: &str) -> Vec<SqlValue> {
    vec![
        SqlValue::Text(range.to_string()),
        SqlValue::DateTime(ts()),
        SqlValue::Null,
    ]
}

fn scenario_source() -> SourceRows {
    SourceRows {
        threads: vec![thread_row(1, "intro")],
        posts: vec![post_row(10, 1, "hi")],
        bans: vec![ban_row("1.2.3.0/24")],
    }
}

fn count(conn: &Connection, table: &str) -> i64 {
    conn.query_row(&format!("select count(*) from {}", table), [], |r| r.get(0))
        .unwrap()
}

#[test]
fn format_timestamp_is_fixed_width() {
    assert_eq!(format_timestamp(&ts()), "2020-01-02 03:04:05");
    let t = Timestamp { year: 999, month: 12, day: 31, hour: 23, minute: 59, second: 59 };
    assert_eq!(format_timestamp(&t), "0999-12-31 23:59:59");
}

#[test]
fn format_u64_renders_decimal() {
    assert_eq!(format_u64(0), "0");
    assert_eq!(format_u64(7), "7");
    assert_eq!(format_u64(1234567890), "1234567890");
}

#[test]
fn map_thread_passes_fields_through() {
    let t = map_thread(&thread_row(1, "intro")).unwrap();
    assert_eq!(t.tid, 1);
    assert_eq!(t.created, ts());
    assert_eq!(t.subject, "intro");
    assert!(!t.deleted);
    assert_eq!(t.hash, None);
}

#[test]
fn map_thread_reads_deleted_flag_and_hash() {
    let row = vec![
        SqlValue::Int(2),
        SqlValue::DateTime(ts()),
        SqlValue::Text("x".to_string()),
        SqlValue::Int(1),
        SqlValue::Text("abcd".to_string()),
    ];
    let t = map_thread(&row).unwrap();
    assert!(t.deleted);
    assert_eq!(t.hash.as_deref(), Some("abcd"));
}

#[test]
fn map_thread_rejects_bad_shapes() {
    assert!(map_thread(&vec![]).is_err());
    let mut row = thread_row(1, "intro");
    row[0] = SqlValue::Text("1".to_string());
    assert!(map_thread(&row).is_err());
    let mut row = thread_row(1, "intro");
    row[3] = SqlValue::Int(2);
    assert!(map_thread(&row).is_err());
    let mut row = thread_row(1, "intro");
    row[1] = SqlValue::DateTime(Timestamp { year: 2020, month: 13, day: 1, hour: 0, minute: 0, second: 0 });
    assert!(map_thread(&row).is_err());
    let row = thread_row(1 << 40, "intro");
    assert!(map_thread(&row).is_err());
}

#[test]
fn map_post_passes_fields_through() {
    let p = map_post(&post_row(10, 1, "hi")).unwrap();
    assert_eq!(p.pid, 10);
    assert_eq!(p.tid, 1);
    assert_eq!(p.content, "hi");
    assert_eq!(p.options, "0");
    assert_eq!(p.ipaddress, "9.8.7.6");
    assert_eq!(p.username, None);
    assert_eq!(p.tripraw, None);
    assert_eq!(p.image, None);
}

#[test]
fn map_ban_passes_fields_through() {
    let b = map_ban(&ban_row("1.2.3.0/24")).unwrap();
    assert_eq!(b.range, "1.2.3.0/24");
    assert_eq!(b.created, ts());
    assert_eq!(b.note, None);
}

#[test]
fn map_threads_reports_first_bad_row() {
    let rows = vec![thread_row(1, "a"), vec![SqlValue::Null], thread_row(2, "b")];
    assert_eq!(map_threads(&rows).unwrap_err(), 1);
}

#[test]
fn scenario_one_run_copies_everything() {
    let mut conn = Connection::open_in_memory().unwrap();
    let rep = run_migration(&mut conn, &scenario_source()).unwrap();
    assert_eq!(rep.threads_read, 1);
    assert_eq!(rep.threads_written, 1);
    assert_eq!(rep.posts_read, 1);
    assert_eq!(rep.posts_written, 1);
    assert_eq!(rep.bans_read, 1);
    assert_eq!(rep.bans_written, 1);
    let (tid, subject, created): (i64, String, String) = conn
        .query_row("select tid, subject, created from threads", [], |r| {
            Ok((r.get(0)?, r.get(1)?, r.get(2)?))
        })
        .unwrap();
    assert_eq!(tid, 1);
    assert_eq!(subject, "intro");
    assert_eq!(created, "2020-01-02 03:04:05");
    let (pid, ptid, content): (i64, i64, String) = conn
        .query_row("select pid, tid, content from posts", [], |r| {
            Ok((r.get(0)?, r.get(1)?, r.get(2)?))
        })
        .unwrap();
    assert_eq!(pid, 10);
    assert_eq!(ptid, 1);
    assert_eq!(content, "hi");
    let range: String = conn
        .query_row("select range from bans", [], |r| r.get(0))
        .unwrap();
    assert_eq!(range, "1.2.3.0/24");
}

#[test]
fn scenario_second_run_is_rejected() {
    let mut conn = Connection::open_in_memory().unwrap();
    run_migration(&mut conn, &scenario_source()).unwrap();
    let err = run_migration(&mut conn, &scenario_source()).unwrap_err();
    assert_eq!(err, MigrateError::Load { kind: EntityKind::Threads });
    assert_eq!(count(&conn, "threads"), 1);
    assert_eq!(count(&conn, "posts"), 1);
    assert_eq!(count(&conn, "bans"), 1);
    let content: String = conn
        .query_row("select content from posts", [], |r| r.get(0))
        .unwrap();
    assert_eq!(content, "hi");
}

#[test]
fn provisioning_twice_is_harmless() {
    let mut conn = Connection::open_in_memory().unwrap();
    create_tables(&mut conn).unwrap();
    let objects: i64 = conn
        .query_row("select count(*) from sqlite_master", [], |r| r.get(0))
        .unwrap();
    create_tables(&mut conn).unwrap();
    let objects_again: i64 = conn
        .query_row("select count(*) from sqlite_master", [], |r| r.get(0))
        .unwrap();
    assert_eq!(objects, objects_again);
}

#[test]
fn provisioning_after_a_run_keeps_rows() {
    let mut conn = Connection::open_in_memory().unwrap();
    run_migration(&mut conn, &scenario_source()).unwrap();
    create_tables(&mut conn).unwrap();
    assert_eq!(count(&conn, "threads"), 1);
    assert_eq!(count(&conn, "posts"), 1);
    assert_eq!(count(&conn, "bans"), 1);
}

#[test]
fn provisioning_a_readonly_destination_fails() {
    let mut conn = Connection::open_in_memory_with_flags(
        rusqlite::OpenFlags::SQLITE_OPEN_READ_ONLY | rusqlite::OpenFlags::SQLITE_OPEN_NO_MUTEX,
    )
    .unwrap();
    assert_eq!(create_tables(&mut conn).unwrap_err(), MigrateError::Schema);
}

#[test]
fn dangling_thread_reference_still_loads() {
    let mut conn = Connection::open_in_memory().unwrap();
    let src = SourceRows {
        threads: vec![],
        posts: vec![post_row(10, 99, "orphan")],
        bans: vec![],
    };
    run_migration(&mut conn, &src).unwrap();
    assert_eq!(count(&conn, "posts"), 1);
    assert_eq!(count(&conn, "threads"), 0);
}

#[test]
fn counts_are_preserved_per_kind() {
    let mut conn = Connection::open_in_memory().unwrap();
    let src = SourceRows {
        threads: vec![thread_row(1, "a"), thread_row(2, "b"), thread_row(3, "c")],
        posts: vec![post_row(10, 1, "x"), post_row(11, 3, "y")],
        bans: vec![ban_row("10.0.0.0/8")],
    };
    let rep = run_migration(&mut conn, &src).unwrap();
    assert_eq!(rep.threads_written, 3);
    assert_eq!(rep.posts_written, 2);
    assert_eq!(rep.bans_written, 1);
    assert_eq!(count(&conn, "threads"), 3);
    assert_eq!(count(&conn, "posts"), 2);
    assert_eq!(count(&conn, "bans"), 1);
}

#[test]
fn duplicate_id_within_a_batch_rolls_back_the_kind() {
    let mut conn = Connection::open_in_memory().unwrap();
    let src = SourceRows {
        threads: vec![thread_row(1, "a"), thread_row(1, "b")],
        posts: vec![],
        bans: vec![],
    };
    let err = run_migration(&mut conn, &src).unwrap_err();
    assert_eq!(err, MigrateError::Load { kind: EntityKind::Threads });
    assert_eq!(count(&conn, "threads"), 0);
}

#[test]
fn failed_load_keeps_earlier_kinds_and_its_own_table_unchanged() {
    let mut conn = Connection::open_in_memory().unwrap();
    run_migration(
        &mut conn,
        &SourceRows { threads: vec![thread_row(1, "a")], posts: vec![], bans: vec![ban_row("x.net")] },
    )
    .unwrap();
    let src = SourceRows {
        threads: vec![thread_row(2, "b")],
        posts: vec![post_row(10, 2, "p")],
        bans: vec![ban_row("y.net"), ban_row("x.net")],
    };
    let err = run_migration(&mut conn, &src).unwrap_err();
    assert_eq!(err, MigrateError::Load { kind: EntityKind::Bans });
    assert_eq!(count(&conn, "threads"), 2);
    assert_eq!(count(&conn, "posts"), 1);
    assert_eq!(count(&conn, "bans"), 1);
    let range: String = conn
        .query_row("select range from bans", [], |r| r.get(0))
        .unwrap();
    assert_eq!(range, "x.net");
}

#[test]
fn provisioning_rejects_a_foreign_schema() {
    let mut conn = Connection::open_in_memory().unwrap();
    conn.execute("create table threads (tid int, subject text)", [])
        .unwrap();
    assert_eq!(create_tables(&mut conn).unwrap_err(), MigrateError::Schema);
}

#[test]
fn provisioning_rejects_a_destination_with_triggers() {
    let mut conn = Connection::open_in_memory().unwrap();
    create_tables(&mut conn).unwrap();
    conn.execute_batch(
        "create trigger trg after insert on threads begin \
         insert into bans (range, created) values ('t.net', 'x'); end;",
    )
    .unwrap();
    assert_eq!(create_tables(&mut conn).unwrap_err(), MigrateError::Schema);
}

#[test]
fn duplicate_ban_range_fails() {
    let mut conn = Connection::open_in_memory().unwrap();
    create_tables(&mut conn).unwrap();
    let first = vec![Ban { range: "1.2.3.0/24".to_string(), created: ts(), note: None }];
    insert_bans(&mut conn, &first).unwrap();
    let again = vec![Ban { range: "1.2.3.0/24".to_string(), created: ts(), note: Some("x".to_string()) }];
    let err = insert_bans(&mut conn, &again).unwrap_err();
    assert_eq!(err, MigrateError::Load { kind: EntityKind::Bans });
    assert_eq!(count(&conn, "bans"), 1);
}

#[test]
fn bad_thread_row_aborts_before_any_write() {
    let mut conn = Connection::open_in_memory().unwrap();
    let src = SourceRows {
        threads: vec![thread_row(1, "a"), vec![SqlValue::Null]],
        posts: vec![post_row(10, 1, "x")],
        bans: vec![],
    };
    let err = run_migration(&mut conn, &src).unwrap_err();
    assert_eq!(err, MigrateError::BadRow { kind: EntityKind::Threads, index: 1 });
    assert_eq!(count(&conn, "threads"), 0);
    assert_eq!(count(&conn, "posts"), 0);
}

#[test]
fn bad_post_row_keeps_loaded_threads() {
    let mut conn = Connection::open_in_memory().unwrap();
    let src = SourceRows {
        threads: vec![thread_row(1, "a")],
        posts: vec![vec![SqlValue::Int(10)]],
        bans: vec![ban_row("1.2.3.0/24")],
    };
    let err = run_migration(&mut conn, &src).unwrap_err();
    assert_eq!(err, MigrateError::BadRow { kind: EntityKind::Posts, index: 0 });
    assert_eq!(count(&conn, "threads"), 1);
    assert_eq!(count(&conn, "posts"), 0);
    assert_eq!(count(&conn, "bans"), 0);
}

#[test]
fn insert_threads_stores_every_field() {
    let mut conn = Connection::open_in_memory().unwrap();
    create_tables(&mut conn).unwrap();
    let batch = vec![
        Thread { tid: 5, created: ts(), subject: "one".to_string(), deleted: false, hash: None },
        Thread { tid: 3, created: ts(), subject: "two".to_string(), deleted: true, hash: Some("h".to_string()) },
    ];
    insert_threads(&mut conn, &batch).unwrap();
    let (subject, deleted, hash): (String, i64, Option<String>) = conn
        .query_row("select subject, deleted, hash from threads where tid = 3", [], |r| {
            Ok((r.get(0)?, r.get(1)?, r.get(2)?))
        })
        .unwrap();
    assert_eq!(subject, "two");
    assert_eq!(deleted, 1);
    assert_eq!(hash.as_deref(), Some("h"));
}

#[test]
fn insert_bans_appends_in_order() {
    let mut conn = Connection::open_in_memory().unwrap();
    create_tables(&mut conn).unwrap();
    let batch = vec![
        Ban { range: "b.net".to_string(), created: ts(), note: None },
        Ban { range: "a.net".to_string(), created: ts(), note: Some("n".to_string()) },
    ];
    insert_bans(&mut conn, &batch).unwrap();
    let mut stmt = conn.prepare("select range from bans order by rowid").unwrap();
    let rows: Vec<String> = stmt
        .query_map([], |r| r.get(0))
        .unwrap()
        .map(|x| x.unwrap())
        .collect();
    assert_eq!(rows, vec!["b.net".to_string(), "a.net".to_string()]);
}

#[test]
fn image_reply_reports_byte_count() {
    let reply = image_reply("pic.png", &Some(vec![1, 2, 3, 4, 5]));
    match reply {
        ImageReply::Found { message } => {
            assert_eq!(message, "You asked for: pic.png, was 5 bytes");
        }
        ImageReply::NotFound => panic!("expected a found reply"),
    }
}

#[test]
fn image_reply_maps_absence_to_not_found() {
    let reply = image_reply("missing.png", &None);
    assert!(matches!(reply, ImageReply::NotFound));
}
