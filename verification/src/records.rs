//! The three entity records that the migration moves, the calendar timestamp
//! they carry, and the loosely typed cell values a raw source row is made of.

use vstd::prelude::*;

verus! {

/// A calendar timestamp held as plain fields. The destination store receives
/// it as text in `YYYY-MM-DD HH:MM:SS` form.
#[derive(Clone, Copy, Debug, PartialEq, Eq, Structural)]
pub struct Timestamp {
    pub year: u16,
    pub month: u8,
    pub day: u8,
    pub hour: u8,
    pub minute: u8,
    pub second: u8,
}

impl Timestamp {
    /// A well-formed timestamp: every field within calendar bounds.
    pub open spec fn wf(self) -> bool {
        &&& self.year <= 9999
        &&& 1 <= self.month <= 12
        &&& 1 <= self.day <= 31
        &&& self.hour < 24
        &&& self.minute < 60
        &&& self.second < 60
    }

    /// Runtime check of `wf`.
    pub fn check_wf(&self) -> (r: bool)
        ensures
            r == self.wf(),
    {
        self.year <= 9999 && 1 <= self.month && self.month <= 12 && 1 <= self.day
            && self.day <= 31 && self.hour < 24 && self.minute < 60 && self.second < 60
    }
}

/// One loosely typed cell of a raw source row, as the source store hands it
/// over: an integer, a text, a timestamp, or SQL NULL.
#[derive(Clone, Debug)]
pub enum SqlValue {
    Int(i64),
    Text(String),
    DateTime(Timestamp),
    Null,
}

/// The mathematical value of one source cell.
pub ghost enum SqlValueV {
    Int(int),
    Text(Seq<char>),
    DateTime(Timestamp),
    Null,
}

impl View for SqlValue {
    type V = SqlValueV;

    open spec fn view(&self) -> SqlValueV {
        match self {
            SqlValue::Int(v) => SqlValueV::Int(*v as int),
            SqlValue::Text(s) => SqlValueV::Text(s@),
            SqlValue::DateTime(t) => SqlValueV::DateTime(*t),
            SqlValue::Null => SqlValueV::Null,
        }
    }
}

/// The values of one raw row.
pub open spec fn row_vals(row: Seq<SqlValue>) -> Seq<SqlValueV> {
    row.map_values(|v: SqlValue| v@)
}

/// The values of a whole raw collection, row by row.
pub open spec fn grid_vals(rows: Seq<Vec<SqlValue>>) -> Seq<Seq<SqlValueV>> {
    rows.map_values(|r: Vec<SqlValue>| row_vals(r@))
}

/// The view of an optional text field.
pub open spec fn opt_view(o: Option<String>) -> Option<Seq<char>> {
    match o {
        Some(s) => Some(s@),
        None => None,
    }
}

/// A destination thread record.
#[derive(Clone, Debug)]
pub struct Thread {
    pub tid: i32,
    pub created: Timestamp,
    pub subject: String,
    pub deleted: bool,
    pub hash: Option<String>,
}

/// The mathematical value of a thread record.
pub ghost struct ThreadV {
    pub tid: int,
    pub created: Timestamp,
    pub subject: Seq<char>,
    pub deleted: bool,
    pub hash: Option<Seq<char>>,
}

impl View for Thread {
    type V = ThreadV;

    open spec fn view(&self) -> ThreadV {
        ThreadV {
            tid: self.tid as int,
            created: self.created,
            subject: self.subject@,
            deleted: self.deleted,
            hash: opt_view(self.hash),
        }
    }
}

/// A destination post record. `tid` is a logical reference to a thread and is
/// not validated: it may dangle.
#[derive(Clone, Debug)]
pub struct Post {
    pub pid: i32,
    pub tid: i32,
    pub created: Timestamp,
    pub content: String,
    pub options: String,
    pub ipaddress: String,
    pub username: Option<String>,
    pub tripraw: Option<String>,
    pub image: Option<String>,
}

/// The mathematical value of a post record.
pub ghost struct PostV {
    pub pid: int,
    pub tid: int,
    pub created: Timestamp,
    pub content: Seq<char>,
    pub options: Seq<char>,
    pub ipaddress: Seq<char>,
    pub username: Option<Seq<char>>,
    pub tripraw: Option<Seq<char>>,
    pub image: Option<Seq<char>>,
}

impl View for Post {
    type V = PostV;

    open spec fn view(&self) -> PostV {
        PostV {
            pid: self.pid as int,
            tid: self.tid as int,
            created: self.created,
            content: self.content@,
            options: self.options@,
            ipaddress: self.ipaddress@,
            username: opt_view(self.username),
            tripraw: opt_view(self.tripraw),
            image: opt_view(self.image),
        }
    }
}

/// A destination ban record. `range` is the unique key.
#[derive(Clone, Debug)]
pub struct Ban {
    pub range: String,
    pub created: Timestamp,
    pub note: Option<String>,
}

/// The mathematical value of a ban record.
pub ghost struct BanV {
    pub range: Seq<char>,
    pub created: Timestamp,
    pub note: Option<Seq<char>>,
}

impl View for Ban {
    type V = BanV;

    open spec fn view(&self) -> BanV {
        BanV { range: self.range@, created: self.created, note: opt_view(self.note) }
    }
}

/// The values of a sequence of thread records.
pub open spec fn thread_views(ts: Seq<Thread>) -> Seq<ThreadV> {
    ts.map_values(|t: Thread| t@)
}

/// The values of a sequence of post records.
pub open spec fn post_views(ps: Seq<Post>) -> Seq<PostV> {
    ps.map_values(|p: Post| p@)
}

/// The values of a sequence of ban records.
pub open spec fn ban_views(bs: Seq<Ban>) -> Seq<BanV> {
    bs.map_values(|b: Ban| b@)
}

} // verus!
