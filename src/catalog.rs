//! The catalog of sounds: one SQLite table, `audio`, with a full-text mirror,
//! `fts5_audio`, that triggers keep in step with it inside each write.

use vstd::prelude::*;
use vstd::string::*;
use crate::audio::AudioFile;
use crate::normalize::{blank_non_tag, join_words, split_words, strings_view, Tags};
use crate::store::{execute, execute_batch, query_rows, store_error, DbConnection, SqlParam, SqlValue, StoreError};
use crate::text::{push_char, push_signed_decimal, signed_decimal, str_eq};

verus! {

/// Relies on chrono's `Utc::now` and `DateTime::timestamp_millis`: the time now,
/// in milliseconds since the Unix epoch.
#[verifier::external_body]
pub(crate) fn now_millis() -> i64 {
    chrono::Utc::now().timestamp_millis()
}

/// Sort direction.
#[derive(Debug, Clone, Copy, PartialEq, Eq, Structural)]
pub enum Order {
    Asc,
    Desc,
}

pub open spec fn order_word(o: Order) -> Seq<char> {
    match o {
        Order::Asc => "ASC"@,
        Order::Desc => "DESC"@,
    }
}

impl Order {
    pub fn inverse(&self) -> (r: Order)
        ensures
            r == match *self {
                Order::Asc => Order::Desc,
                Order::Desc => Order::Asc,
            },
    {
        match self {
            Order::Asc => Order::Desc,
            Order::Desc => Order::Asc,
        }
    }

    pub fn as_sql(&self) -> (r: &'static str)
        ensures
            r@ == order_word(*self),
    {
        match self {
            Order::Asc => "ASC",
            Order::Desc => "DESC",
        }
    }
}

/// The column a list is sorted by, with its direction.
#[derive(Debug, Clone, Copy, PartialEq, Eq, Structural)]
pub enum AudioTableOrderBy {
    CreatedAt(Order),
    Id(Order),
    Name(Order),
    PlayCount(Order),
}

pub open spec fn order_column(o: AudioTableOrderBy) -> Seq<char> {
    match o {
        AudioTableOrderBy::CreatedAt(_) => "created_at"@,
        AudioTableOrderBy::Id(_) => "id"@,
        AudioTableOrderBy::Name(_) => "name"@,
        AudioTableOrderBy::PlayCount(_) => "play_count"@,
    }
}

pub open spec fn order_direction(o: AudioTableOrderBy) -> Order {
    match o {
        AudioTableOrderBy::CreatedAt(d) => d,
        AudioTableOrderBy::Id(d) => d,
        AudioTableOrderBy::Name(d) => d,
        AudioTableOrderBy::PlayCount(d) => d,
    }
}

/// The `ORDER BY` term, such as `play_count DESC`.
pub open spec fn order_sql(o: AudioTableOrderBy) -> Seq<char> {
    order_column(o) + seq![' '] + order_word(order_direction(o))
}

impl AudioTableOrderBy {
    pub fn col_name(&self) -> (r: &'static str)
        ensures
            r@ == order_column(*self),
    {
        match self {
            AudioTableOrderBy::CreatedAt(_) => "created_at",
            AudioTableOrderBy::Id(_) => "id",
            AudioTableOrderBy::Name(_) => "name",
            AudioTableOrderBy::PlayCount(_) => "play_count",
        }
    }

    pub fn order(&self) -> (r: Order)
        ensures
            r == order_direction(*self),
    {
        match self {
            AudioTableOrderBy::CreatedAt(d) => *d,
            AudioTableOrderBy::Id(d) => *d,
            AudioTableOrderBy::Name(d) => *d,
            AudioTableOrderBy::PlayCount(d) => *d,
        }
    }

    pub fn to_sql_str(&self) -> (r: String)
        ensures
            r@ == order_sql(*self),
    {
        let mut s = String::from_str(self.col_name());
        push_char(&mut s, ' ');
        s.append(self.order().as_sql());
        s
    }

    /// The same column, sorted the other way.
    pub fn inverse_order(&self) -> (r: AudioTableOrderBy)
        ensures
            order_column(r) == order_column(*self),
            order_direction(r) == order_direction(*self).inverse_spec(),
    {
        match self {
            AudioTableOrderBy::CreatedAt(d) => AudioTableOrderBy::CreatedAt(d.inverse()),
            AudioTableOrderBy::Id(d) => AudioTableOrderBy::Id(d.inverse()),
            AudioTableOrderBy::Name(d) => AudioTableOrderBy::Name(d.inverse()),
            AudioTableOrderBy::PlayCount(d) => AudioTableOrderBy::PlayCount(d.inverse()),
        }
    }
}

impl Order {
    pub open spec fn inverse_spec(self) -> Order {
        match self {
            Order::Asc => Order::Desc,
            Order::Desc => Order::Asc,
        }
    }
}

/// A unique column of the catalog with the value to look up.
#[derive(Debug, Clone, PartialEq, Eq)]
pub enum UniqueAudioTableCol {
    Id(i64),
    Name(String),
    AudioFile(String),
}

impl UniqueAudioTableCol {
    /// The value as text.
    pub fn value(&self) -> (r: String)
        ensures
            r@ == match self {
                UniqueAudioTableCol::Id(i) => signed_decimal(*i as int),
                UniqueAudioTableCol::Name(n) => n@,
                UniqueAudioTableCol::AudioFile(f) => f@,
            },
    {
        match self {
            UniqueAudioTableCol::Id(i) => {
                let mut s = String::new();
                push_signed_decimal(&mut s, *i);
                assert(s@ =~= signed_decimal(*i as int));
                s
            },
            UniqueAudioTableCol::Name(n) => n.clone(),
            UniqueAudioTableCol::AudioFile(f) => f.clone(),
        }
    }

    /// The `WHERE` condition, with one parameter.
    pub fn sql_condition(&self) -> (r: &'static str)
        ensures
            r@ == match self {
                UniqueAudioTableCol::Id(_) => "id = ?1"@,
                UniqueAudioTableCol::Name(_) => "name = ?1"@,
                UniqueAudioTableCol::AudioFile(_) => "audio_file = ?1"@,
            },
    {
        match self {
            UniqueAudioTableCol::Id(_) => "id = ?1",
            UniqueAudioTableCol::Name(_) => "name = ?1",
            UniqueAudioTableCol::AudioFile(_) => "audio_file = ?1",
        }
    }

    /// The parameter bound to the condition.
    pub fn sql_param(&self) -> (r: SqlParam)
        ensures
            match self {
                UniqueAudioTableCol::Id(i) => r == SqlParam::Integer(*i),
                UniqueAudioTableCol::Name(n) => r matches SqlParam::Text(t) && t@ == n@,
                UniqueAudioTableCol::AudioFile(f) => r matches SqlParam::Text(t) && t@ == f@,
            },
    {
        match self {
            UniqueAudioTableCol::Id(i) => SqlParam::Integer(*i),
            UniqueAudioTableCol::Name(n) => SqlParam::Text(n.clone()),
            UniqueAudioTableCol::AudioFile(f) => SqlParam::Text(f.clone()),
        }
    }
}

/// A sound of the catalog. Times are milliseconds since the Unix epoch.
#[derive(Debug, Clone, PartialEq, Eq)]
pub struct AudioTableRow {
    pub id: i64,
    pub name: String,
    pub tags: Tags,
    pub audio_file: AudioFile,
    pub created_at: i64,
    pub author_id: Option<u64>,
    pub author_name: Option<String>,
    pub author_global_name: Option<String>,
    pub play_count: i64,
    pub last_played_at: Option<i64>,
    pub pinned: bool,
}

/// Whether a row holds the looked-up value in its column.
pub open spec fn row_has_key(row: AudioTableRow, col: UniqueAudioTableCol) -> bool {
    match col {
        UniqueAudioTableCol::Id(i) => row.id == i,
        UniqueAudioTableCol::Name(n) => row.name@ == n@,
        UniqueAudioTableCol::AudioFile(f) => row.audio_file@ == f@,
    }
}

pub fn row_matches_key(row: &AudioTableRow, col: &UniqueAudioTableCol) -> (r: bool)
    ensures
        r == row_has_key(*row, *col),
{
    match col {
        UniqueAudioTableCol::Id(i) => row.id == *i,
        UniqueAudioTableCol::Name(n) => str_eq(row.name.as_str(), n.as_str()),
        UniqueAudioTableCol::AudioFile(f) => str_eq(row.audio_file.path(), f.as_str()),
    }
}

/// The columns of a row, in the order the queries select them.
pub const ROW_COLUMNS: usize = 11;

pub open spec fn opt_text_cell(c: SqlValue, v: Option<String>) -> bool {
    match c {
        SqlValue::Null => v is None,
        SqlValue::Text(s) => v matches Some(t) && t@ == s@,
        _ => false,
    }
}

pub open spec fn opt_int_cell(c: SqlValue, v: Option<i64>) -> bool {
    match c {
        SqlValue::Null => v is None,
        SqlValue::Integer(i) => v == Some(i),
        _ => false,
    }
}

/// Whether the cells have the kinds a row needs.
pub open spec fn row_cells_ok(c: Seq<SqlValue>) -> bool {
    &&& c.len() == ROW_COLUMNS
    &&& c[0] is Integer
    &&& c[1] is Text
    &&& (c[2] is Null || c[2] is Text)
    &&& c[3] is Text
    &&& c[4] is Integer
    &&& (c[5] is Null || (c[5] matches SqlValue::Integer(i) && i >= 0))
    &&& (c[6] is Null || c[6] is Text)
    &&& (c[7] is Null || c[7] is Text)
    &&& c[8] is Integer
    &&& (c[9] is Null || c[9] is Integer)
    &&& c[10] is Integer
}

/// Whether the row is what the cells say.
pub open spec fn row_from_cells(row: AudioTableRow, c: Seq<SqlValue>) -> bool {
    &&& c[0] == SqlValue::Integer(row.id)
    &&& c[1] matches SqlValue::Text(s) && s@ == row.name@
    &&& (c[2] matches SqlValue::Text(s) ==> row.tags@ == split_words(blank_non_tag(s@)))
    &&& (c[2] is Null ==> row.tags@.len() == 0)
    &&& c[3] matches SqlValue::Text(s) && s@ == row.audio_file@
    &&& c[4] == SqlValue::Integer(row.created_at)
    &&& match c[5] {
        SqlValue::Integer(i) => row.author_id == Some(i as u64),
        _ => row.author_id is None,
    }
    &&& opt_text_cell(c[6], row.author_name)
    &&& opt_text_cell(c[7], row.author_global_name)
    &&& c[8] == SqlValue::Integer(row.play_count)
    &&& opt_int_cell(c[9], row.last_played_at)
    &&& c[10] matches SqlValue::Integer(p) && row.pinned == (p != 0)
}

fn int_of(c: &SqlValue) -> (r: Option<i64>)
    ensures
        r == match *c {
            SqlValue::Integer(i) => Some(i),
            _ => None,
        },
{
    match c {
        SqlValue::Integer(i) => Some(*i),
        _ => None,
    }
}

fn text_of(c: &SqlValue) -> (r: Option<String>)
    ensures
        match *c {
            SqlValue::Text(s) => r matches Some(t) && t@ == s@,
            _ => r is None,
        },
{
    match c {
        SqlValue::Text(s) => Some(s.clone()),
        _ => None,
    }
}

/// `Some(None)` for `NULL`, `Some(Some(t))` for text, `None` otherwise.
fn opt_text_of(c: &SqlValue) -> (r: Option<Option<String>>)
    ensures
        r is Some <==> (*c is Null || *c is Text),
        r matches Some(v) ==> opt_text_cell(*c, v),
{
    match c {
        SqlValue::Null => Some(None),
        SqlValue::Text(s) => Some(Some(s.clone())),
        _ => None,
    }
}

/// Reads a row from the cells a query returned; `None` where a cell has the
/// wrong kind.
pub fn decode_row(cells: &Vec<SqlValue>) -> (r: Option<AudioTableRow>)
    ensures
        r is Some <==> row_cells_ok(cells@),
        r matches Some(row) ==> row_from_cells(row, cells@),
{
    if cells.len() != ROW_COLUMNS {
        return None;
    }
    let id = match int_of(&cells[0]) {
        Some(v) => v,
        None => return None,
    };
    let name = match text_of(&cells[1]) {
        Some(v) => v,
        None => return None,
    };
    let tags = match &cells[2] {
        SqlValue::Null => Tags::new(),
        SqlValue::Text(t) => Tags::from_text(t.as_str()),
        _ => return None,
    };
    let audio_file = match text_of(&cells[3]) {
        Some(v) => AudioFile::new(v),
        None => return None,
    };
    let created_at = match int_of(&cells[4]) {
        Some(v) => v,
        None => return None,
    };
    let author_id: Option<u64> = match &cells[5] {
        SqlValue::Null => None,
        SqlValue::Integer(i) => {
            if *i < 0 {
                return None;
            }
            Some(*i as u64)
        },
        _ => return None,
    };
    let author_name = match opt_text_of(&cells[6]) {
        Some(v) => v,
        None => return None,
    };
    let author_global_name = match opt_text_of(&cells[7]) {
        Some(v) => v,
        None => return None,
    };
    let play_count = match int_of(&cells[8]) {
        Some(v) => v,
        None => return None,
    };
    let last_played_at: Option<i64> = match &cells[9] {
        SqlValue::Null => None,
        SqlValue::Integer(i) => Some(*i),
        _ => return None,
    };
    let pinned = match int_of(&cells[10]) {
        Some(v) => v != 0,
        None => return None,
    };
    Some(
        AudioTableRow {
            id,
            name,
            tags,
            audio_file,
            created_at,
            author_id,
            author_name,
            author_global_name,
            play_count,
            last_played_at,
            pinned,
        },
    )
}

/// A sound to be added. Times are milliseconds since the Unix epoch.
#[derive(Debug, Clone, PartialEq, Eq)]
pub struct AudioTableRowInsert {
    pub name: String,
    pub tags: Tags,
    pub audio_file: AudioFile,
    pub created_at: i64,
    pub author_id: Option<u64>,
    pub author_name: Option<String>,
    pub author_global_name: Option<String>,
    pub play_count: i64,
    pub last_played_at: Option<i64>,
    pub pinned: bool,
}

pub open spec fn opt_text_param(v: Option<String>) -> SqlParam {
    match v {
        Some(t) => SqlParam::Text(t),
        None => SqlParam::Null,
    }
}

fn opt_text_param_of(v: &Option<String>) -> (r: SqlParam)
    ensures
        r == opt_text_param(*v),
{
    match v {
        Some(t) => SqlParam::Text(t.clone()),
        None => SqlParam::Null,
    }
}

/// Empty tags are stored as `NULL`, others as their space-joined text.
fn tags_param(tags: &Tags) -> (r: SqlParam)
    ensures
        tags@.len() == 0 ==> r == SqlParam::Null,
        tags@.len() > 0 ==> (r matches SqlParam::Text(t) && t@ == crate::normalize::join_words(tags@)),
{
    if tags.len() == 0 {
        SqlParam::Null
    } else {
        SqlParam::Text(tags.to_text())
    }
}

impl AudioTableRowInsert {
    /// The parameters of the insert statement: name, tags, audio file, creation
    /// time, author id, author name, author display name. An author id past
    /// `i64::MAX` cannot be stored.
    pub fn sql_params(&self) -> (r: Result<Vec<SqlParam>, StoreError>)
        ensures
            (self.author_id matches Some(a) && a > i64::MAX) <==> r is Err,
            r matches Err(e) ==> e is Failed,
            r matches Ok(p) ==> {
                &&& p.len() == 7
                &&& p[0] matches SqlParam::Text(t) && t@ == self.name@
                &&& (self.tags@.len() == 0 ==> p[1] == SqlParam::Null)
                &&& (self.tags@.len() > 0 ==> (p[1] matches SqlParam::Text(t) && t@
                    == crate::normalize::join_words(self.tags@)))
                &&& p[2] matches SqlParam::Text(t) && t@ == self.audio_file@
                &&& p[3] == SqlParam::Integer(self.created_at)
                &&& p[4] == match self.author_id {
                    Some(a) => SqlParam::Integer(a as i64),
                    None => SqlParam::Null,
                }
                &&& p[5] == opt_text_param(self.author_name)
                &&& p[6] == opt_text_param(self.author_global_name)
            },
    {
        let author = match self.author_id {
            Some(a) => {
                if a > i64::MAX as u64 {
                    return Err(StoreError::Failed(String::from_str("author id is out of range")));
                }
                SqlParam::Integer(a as i64)
            },
            None => SqlParam::Null,
        };
        let mut p: Vec<SqlParam> = Vec::new();
        p.push(SqlParam::Text(self.name.clone()));
        p.push(tags_param(&self.tags));
        p.push(SqlParam::Text(String::from_str(self.audio_file.path())));
        p.push(SqlParam::Integer(self.created_at));
        p.push(author);
        p.push(opt_text_param_of(&self.author_name));
        p.push(opt_text_param_of(&self.author_global_name));
        Ok(p)
    }
}

/// Builds an `AudioTableRowInsert`, starting from a name and a file, created
/// now, with no tags, author, plays or pin.
pub struct AudioTableRowInsertBuilder {
    pub row_insert: AudioTableRowInsert,
}

impl AudioTableRowInsertBuilder {
    pub fn new(name: &str, audio_file: AudioFile) -> (r: AudioTableRowInsertBuilder)
        ensures
            r.row_insert.name@ == name@,
            r.row_insert.audio_file == audio_file,
            r.row_insert.tags@.len() == 0,
            r.row_insert.author_id is None,
            r.row_insert.author_name is None,
            r.row_insert.author_global_name is None,
            r.row_insert.play_count == 0,
            r.row_insert.last_played_at is None,
            !r.row_insert.pinned,
    {
        AudioTableRowInsertBuilder {
            row_insert: AudioTableRowInsert {
                name: String::from_str(name),
                tags: Tags::new(),
                audio_file,
                created_at: now_millis(),
                author_id: None,
                author_name: None,
                author_global_name: None,
                play_count: 0,
                last_played_at: None,
                pinned: false,
            },
        }
    }

    pub fn name(self, name: String) -> (r: AudioTableRowInsertBuilder)
        ensures
            r.row_insert == (AudioTableRowInsert { name, ..self.row_insert }),
    {
        AudioTableRowInsertBuilder { row_insert: AudioTableRowInsert { name, ..self.row_insert } }
    }

    pub fn tags(self, tags: Tags) -> (r: AudioTableRowInsertBuilder)
        ensures
            r.row_insert == (AudioTableRowInsert { tags, ..self.row_insert }),
    {
        AudioTableRowInsertBuilder { row_insert: AudioTableRowInsert { tags, ..self.row_insert } }
    }

    pub fn audio_file(self, audio_file: AudioFile) -> (r: AudioTableRowInsertBuilder)
        ensures
            r.row_insert == (AudioTableRowInsert { audio_file, ..self.row_insert }),
    {
        AudioTableRowInsertBuilder {
            row_insert: AudioTableRowInsert { audio_file, ..self.row_insert },
        }
    }

    pub fn created_at(self, created_at: i64) -> (r: AudioTableRowInsertBuilder)
        ensures
            r.row_insert == (AudioTableRowInsert { created_at, ..self.row_insert }),
    {
        AudioTableRowInsertBuilder {
            row_insert: AudioTableRowInsert { created_at, ..self.row_insert },
        }
    }

    pub fn author_id(self, author_id: Option<u64>) -> (r: AudioTableRowInsertBuilder)
        ensures
            r.row_insert == (AudioTableRowInsert { author_id, ..self.row_insert }),
    {
        AudioTableRowInsertBuilder {
            row_insert: AudioTableRowInsert { author_id, ..self.row_insert },
        }
    }

    pub fn author_name(self, author_name: Option<String>) -> (r: AudioTableRowInsertBuilder)
        ensures
            r.row_insert == (AudioTableRowInsert { author_name, ..self.row_insert }),
    {
        AudioTableRowInsertBuilder {
            row_insert: AudioTableRowInsert { author_name, ..self.row_insert },
        }
    }

    pub fn author_global_name(self, author_global_name: Option<String>) -> (r:
        AudioTableRowInsertBuilder)
        ensures
            r.row_insert == (AudioTableRowInsert { author_global_name, ..self.row_insert }),
    {
        AudioTableRowInsertBuilder {
            row_insert: AudioTableRowInsert { author_global_name, ..self.row_insert },
        }
    }

    pub fn play_count(self, play_count: i64) -> (r: AudioTableRowInsertBuilder)
        ensures
            r.row_insert == (AudioTableRowInsert { play_count, ..self.row_insert }),
    {
        AudioTableRowInsertBuilder {
            row_insert: AudioTableRowInsert { play_count, ..self.row_insert },
        }
    }

    pub fn last_played_at(self, last_played_at: Option<i64>) -> (r: AudioTableRowInsertBuilder)
        ensures
            r.row_insert == (AudioTableRowInsert { last_played_at, ..self.row_insert }),
    {
        AudioTableRowInsertBuilder {
            row_insert: AudioTableRowInsert { last_played_at, ..self.row_insert },
        }
    }

    pub fn pinned(self, pinned: bool) -> (r: AudioTableRowInsertBuilder)
        ensures
            r.row_insert == (AudioTableRowInsert { pinned, ..self.row_insert }),
    {
        AudioTableRowInsertBuilder { row_insert: AudioTableRowInsert { pinned, ..self.row_insert } }
    }

    pub fn build(self) -> (r: AudioTableRowInsert)
        ensures
            r == self.row_insert,
    {
        self.row_insert
    }
}

/// Every `"` doubled.
pub open spec fn double_quotes(s: Seq<char>) -> Seq<char>
    decreases s.len(),
{
    if s.len() == 0 {
        s
    } else if s.last() == '"' {
        double_quotes(s.drop_last()) + seq!['"', '"']
    } else {
        double_quotes(s.drop_last()).push(s.last())
    }
}

/// Free text as one full-text phrase: wrapped in `"`, each inner `"` doubled,
/// so that nothing in it reads as query syntax.
pub open spec fn fts_phrase_spec(s: Seq<char>) -> Seq<char> {
    seq!['"'] + double_quotes(s) + seq!['"']
}

pub fn fts_phrase(text: &str) -> (r: String)
    ensures
        r@ == fts_phrase_spec(text@),
{
    let n = text.unicode_len();
    let mut out = String::new();
    push_char(&mut out, '"');
    let mut i: usize = 0;
    while i < n
        invariant
            n == text@.len(),
            i <= n,
            out@ == seq!['"'] + double_quotes(text@.subrange(0, i as int)),
        decreases n - i,
    {
        let c = text.get_char(i);
        let ghost pre = text@.subrange(0, i + 1);
        assert(pre.drop_last() =~= text@.subrange(0, i as int));
        push_char(&mut out, c);
        if c == '"' {
            push_char(&mut out, '"');
        }
        i += 1;
        assert(out@ =~= seq!['"'] + double_quotes(pre));
    }
    assert(text@.subrange(0, n as int) =~= text@);
    push_char(&mut out, '"');
    assert(out@ =~= fts_phrase_spec(text@));
    out
}

/// How many names autocompletion offers when the caller does not say.
pub const AUTOCOMPLETE_DEFAULT_LIMIT: usize = 5;

/// The catalog table, over a borrowed connection.
pub struct AudioTable<'a> {
    pub conn: &'a DbConnection,
}

fn bool_param(b: bool) -> (r: SqlParam)
    ensures
        r == SqlParam::Integer(if b {
            1
        } else {
            0
        }),
{
    SqlParam::Integer(
        if b {
            1
        } else {
            0
        },
    )
}

pub open spec fn cell_text(c: SqlValue) -> Seq<char> {
    match c {
        SqlValue::Text(t) => t@,
        _ => Seq::empty(),
    }
}

/// The text in the first cell of each row that has one, in order.
pub open spec fn text_names(rows: Seq<Vec<SqlValue>>) -> Seq<Seq<char>>
    decreases rows.len(),
{
    if rows.len() == 0 {
        Seq::empty()
    } else {
        let r = text_names(rows.drop_last());
        let c = rows.last()@;
        if c.len() > 0 && c[0] is Text {
            r.push(cell_text(c[0]))
        } else {
            r
        }
    }
}

/// The first `n` items, or all of them where there are fewer.
pub open spec fn first_n<T>(s: Seq<T>, n: int) -> Seq<T> {
    if n < s.len() {
        s.take(n)
    } else {
        s
    }
}

/// The text cells of one-column rows, at most `limit` of them, in order.
pub fn names_of(rows: &Vec<Vec<SqlValue>>, limit: usize) -> (r: Vec<String>)
    ensures
        strings_view(r@) == first_n(text_names(rows@), limit as int),
        r.len() <= limit,
{
    let mut names: Vec<String> = Vec::new();
    let mut i: usize = 0;
    assert(strings_view(names@) =~= Seq::<Seq<char>>::empty());
    while i < rows.len()
        invariant
            i <= rows.len(),
            names.len() <= limit,
            strings_view(names@) == first_n(text_names(rows@.subrange(0, i as int)), limit as int),
        decreases rows.len() - i,
    {
        let ghost sub = rows@.subrange(0, i as int);
        let ghost sub2 = rows@.subrange(0, i + 1);
        let ghost before = names@;
        assert(sub2.drop_last() =~= sub);
        assert(sub2.last() == rows@[i as int]);
        let ghost t = text_names(sub);
        if names.len() < limit && rows[i].len() > 0 {
            if let SqlValue::Text(s) = &rows[i][0] {
                names.push(s.clone());
                assert(strings_view(names@) =~= strings_view(before).push(s@));
            }
        }
        proof {
            let t2 = text_names(sub2);
            if t2.len() > t.len() && before.len() == limit {
                assert(first_n(t2, limit as int) =~= first_n(t, limit as int));
            }
        }
        i += 1;
    }
    assert(rows@.subrange(0, rows.len() as int) =~= rows@);
    names
}

/// The page size handed to SQLite: the limit, cut to `i64::MAX`.
pub open spec fn bound_of(limit: usize) -> i64 {
    if limit > i64::MAX {
        i64::MAX
    } else {
        limit as i64
    }
}

pub open spec fn recent_names_sql() -> Seq<char> {
    "SELECT name FROM audio ORDER BY created_at DESC LIMIT ?1"@
}

pub open spec fn matching_names_sql() -> Seq<char> {
    "SELECT name FROM fts5_audio(?1) LIMIT ?2"@
}

/// The autocompletion query: under three characters the latest added
/// names, whatever the text; otherwise the names whose name or tags hold
/// the text as one phrase.
pub fn autocomplete_query(partial: &str, limit: usize) -> (r: (&'static str, Vec<SqlParam>))
    ensures
        partial@.len() < 3 ==> r.0@ == recent_names_sql() && r.1@ == seq![
            SqlParam::Integer(bound_of(limit)),
        ],
        partial@.len() >= 3 ==> r.0@ == matching_names_sql() && r.1@.len() == 2 && (
        r.1@[0] matches SqlParam::Text(t) && t@ == fts_phrase_spec(partial@)) && r.1@[1]
            == SqlParam::Integer(bound_of(limit)),
{
    let bound: i64 = if limit as u64 > i64::MAX as u64 {
        i64::MAX
    } else {
        limit as i64
    };
    assert(bound == bound_of(limit));
    let mut params: Vec<SqlParam> = Vec::new();
    if partial.unicode_len() < 3 {
        params.push(SqlParam::Integer(bound));
        assert(params@ =~= seq![SqlParam::Integer(bound_of(limit))]);
        ("SELECT name FROM audio ORDER BY created_at DESC LIMIT ?1", params)
    } else {
        params.push(SqlParam::Text(fts_phrase(partial)));
        params.push(SqlParam::Integer(bound));
        ("SELECT name FROM fts5_audio(?1) LIMIT ?2", params)
    }
}

pub open spec fn tags_param_ok(p: SqlParam, tags: Seq<Seq<char>>) -> bool {
    &&& (tags.len() == 0 ==> p == SqlParam::Null)
    &&& (tags.len() > 0 ==> (p matches SqlParam::Text(t) && t@ == join_words(tags)))
}

impl AudioTableRow {
    /// The parameters of the update statement: name, tags, id.
    pub fn update_params(&self) -> (r: Vec<SqlParam>)
        ensures
            r@.len() == 3,
            r@[0] matches SqlParam::Text(t) && t@ == self.name@,
            tags_param_ok(r@[1], self.tags@),
            r@[2] == SqlParam::Integer(self.id),
    {
        let mut params: Vec<SqlParam> = Vec::new();
        params.push(SqlParam::Text(self.name.clone()));
        params.push(tags_param(&self.tags));
        params.push(SqlParam::Integer(self.id));
        params
    }
}

/// The parameters of the play-count statement: the time, then the id.
pub fn increment_params(now: i64, row_id: i64) -> (r: Vec<SqlParam>)
    ensures
        r@ == seq![SqlParam::Integer(now), SqlParam::Integer(row_id)],
{
    let mut params: Vec<SqlParam> = Vec::new();
    params.push(SqlParam::Integer(now));
    params.push(SqlParam::Integer(row_id));
    assert(params@ =~= seq![SqlParam::Integer(now), SqlParam::Integer(row_id)]);
    params
}

/// The parameters of the pin statement: the pin as 0 or 1, then the name.
pub fn pin_params(audio_name: &str, pinned: bool) -> (r: Vec<SqlParam>)
    ensures
        r@.len() == 2,
        r@[0] == SqlParam::Integer(
            if pinned {
                1
            } else {
                0
            },
        ),
        r@[1] matches SqlParam::Text(t) && t@ == audio_name@,
{
    let mut params: Vec<SqlParam> = Vec::new();
    params.push(bool_param(pinned));
    params.push(SqlParam::Text(String::from_str(audio_name)));
    params
}

/// The parameters of the delete statement: the id.
pub fn delete_params(row_id: i64) -> (r: Vec<SqlParam>)
    ensures
        r@ == seq![SqlParam::Integer(row_id)],
{
    let mut params: Vec<SqlParam> = Vec::new();
    params.push(SqlParam::Integer(row_id));
    assert(params@ =~= seq![SqlParam::Integer(row_id)]);
    params
}

impl<'a> AudioTable<'a> {
    pub const TABLE_NAME: &'static str = "audio";

    pub const FTS5_TABLE_NAME: &'static str = "fts5_audio";

    pub fn new(conn: &'a DbConnection) -> (r: AudioTable<'a>)
        ensures
            r.conn == conn,
    {
        AudioTable { conn }
    }

    /// Creates the table, its full-text mirror and the triggers that keep the
    /// mirror in step, where they do not exist yet.
    pub fn create_table(&self) -> Result<(), StoreError> {
        let sql = "
            BEGIN;
                CREATE TABLE IF NOT EXISTS audio (
                    id INTEGER PRIMARY KEY,
                    name VARCHAR(80) NOT NULL UNIQUE,
                    tags VARCHAR(2048),
                    audio_file VARCHAR(500) NOT NULL UNIQUE,
                    created_at INTEGER NOT NULL,
                    author_id INTEGER,
                    author_name VARCHAR(256),
                    author_global_name VARCHAR(256),
                    play_count INTEGER DEFAULT 0,
                    last_played_at INTEGER DEFAULT NULL,
                    popularity REAL DEFAULT 0,
                    pinned BOOLEAN DEFAULT FALSE
                );

                CREATE VIRTUAL TABLE IF NOT EXISTS fts5_audio USING FTS5(
                    name, tags, content=audio, content_rowid=id, tokenize='trigram remove_diacritics 1'
                );

                CREATE TRIGGER IF NOT EXISTS audio_insert AFTER INSERT ON audio BEGIN
                    INSERT INTO fts5_audio(rowid, name, tags)
                        VALUES (new.id, new.name, new.tags);
                END;

                CREATE TRIGGER IF NOT EXISTS audio_delete AFTER DELETE ON audio BEGIN
                    INSERT INTO fts5_audio(fts5_audio, rowid, name, tags)
                        VALUES('delete', old.id, old.name, old.tags);
                END;

                CREATE TRIGGER IF NOT EXISTS audio_update AFTER UPDATE ON audio BEGIN
                    INSERT INTO fts5_audio(fts5_audio, rowid, name, tags)
                        VALUES('delete', old.id, old.name, old.tags);
                    INSERT INTO fts5_audio(rowid, name, tags)
                        VALUES (new.id, new.name, new.tags);
                END;
            COMMIT;";
        match execute_batch(self.conn, sql) {
            Ok(()) => Ok(()),
            Err(e) => Err(store_error(e)),
        }
    }

    /// Drops the table and its mirror.
    pub fn drop_table(&self) -> Result<(), StoreError> {
        match execute_batch(
            self.conn,
            "DROP TABLE IF EXISTS fts5_audio; DROP TABLE IF EXISTS audio;",
        ) {
            Ok(()) => Ok(()),
            Err(e) => Err(store_error(e)),
        }
    }

    /// The row holding `col`'s value, if any. A failing query finds nothing.
    pub fn find_audio_row(&self, col: &UniqueAudioTableCol) -> (r: Option<AudioTableRow>)
        ensures
            r matches Some(row) ==> row_has_key(row, *col),
            r matches Some(row) ==> exists|c: Seq<SqlValue>|
                row_cells_ok(c) && row_from_cells(row, c),
    {
        let mut sql = String::from_str(
            "SELECT id, name, tags, audio_file, created_at, author_id, author_name, author_global_name, play_count, last_played_at, pinned FROM audio WHERE ",
        );
        sql.append(col.sql_condition());
        let mut params: Vec<SqlParam> = Vec::new();
        params.push(col.sql_param());
        match query_rows(self.conn, sql.as_str(), &params, ROW_COLUMNS) {
            Ok(rows) => {
                if rows.len() == 0 {
                    return None;
                }
                match decode_row(&rows[0]) {
                    Some(row) => {
                        if row_matches_key(&row, col) {
                            Some(row)
                        } else {
                            None
                        }
                    },
                    None => None,
                }
            },
            Err(_) => None,
        }
    }

    /// Whether a row stores this audio file.
    pub fn has_audio_file(&self, audio_file: &str) -> bool {
        self.find_audio_row(&UniqueAudioTableCol::AudioFile(String::from_str(audio_file))).is_some()
    }

    /// Adds a sound; its full-text entry is written by the insert trigger in
    /// the same statement. A taken name or audio file is `Duplicate`.
    pub fn insert_audio_row(&self, audio_row: &AudioTableRowInsert) -> (r: Result<(), StoreError>)
        ensures
            (audio_row.author_id matches Some(a) && a > i64::MAX) ==> r matches Err(
                StoreError::Failed(_),
            ),
    {
        let params = match audio_row.sql_params() {
            Ok(p) => p,
            Err(e) => return Err(e),
        };
        let sql =
            "INSERT INTO audio (name, tags, audio_file, created_at, author_id, author_name, author_global_name) VALUES (?1, ?2, ?3, ?4, ?5, ?6, ?7)";
        match execute(self.conn, sql, &params) {
            Ok(_) => Ok(()),
            Err(e) => Err(store_error(e)),
        }
    }

    /// Replaces the name and tags of the row with `audio_row`'s id; the update
    /// trigger rewrites its full-text entry in the same statement.
    pub fn update_audio_row(&self, audio_row: &AudioTableRow) -> Result<(), StoreError> {
        let params = audio_row.update_params();
        match execute(self.conn, "UPDATE audio SET name = ?1, tags = ?2 WHERE id = ?3", &params) {
            Ok(_) => Ok(()),
            Err(e) => Err(store_error(e)),
        }
    }

    /// Adds one play and stamps the time, in one statement, so that
    /// concurrent plays are all counted.
    pub fn increment_play_count(&self, row_id: i64) -> Result<(), StoreError> {
        let params = increment_params(now_millis(), row_id);
        match execute(
            self.conn,
            "UPDATE audio SET play_count = play_count + 1, last_played_at = ?1 WHERE id = ?2",
            &params,
        ) {
            Ok(_) => Ok(()),
            Err(e) => Err(store_error(e)),
        }
    }

    /// Sets the pin of the sound named `audio_name`.
    pub fn update_audio_row_pin_by_name(&self, audio_name: &str, pinned: bool) -> Result<
        (),
        StoreError,
    > {
        let params = pin_params(audio_name, pinned);
        match execute(self.conn, "UPDATE audio SET pinned = ?1 WHERE name = ?2", &params) {
            Ok(_) => Ok(()),
            Err(e) => Err(store_error(e)),
        }
    }

    /// Removes the row holding `col`'s value, with its full-text entry, and
    /// hands it back so that its audio file can be removed too. Nothing to
    /// remove is `Ok(None)`.
    pub fn delete_audio_row(&self, col: &UniqueAudioTableCol) -> (r: Result<
        Option<AudioTableRow>,
        StoreError,
    >)
        ensures
            r matches Ok(Some(row)) ==> row_has_key(row, *col),
            r matches Ok(Some(row)) ==> exists|c: Seq<SqlValue>|
                row_cells_ok(c) && row_from_cells(row, c),
    {
        match self.find_audio_row(col) {
            None => Ok(None),
            Some(row) => {
                let params = delete_params(row.id);
                match execute(self.conn, "DELETE FROM audio WHERE id = ?1", &params) {
                    Ok(_) => Ok(Some(row)),
                    Err(e) => Err(store_error(e)),
                }
            },
        }
    }

    /// A row picked at random; `None` for an empty catalog.
    pub fn get_random_row(&self) -> (r: Result<Option<AudioTableRow>, StoreError>)
        ensures
            r matches Ok(Some(row)) ==> exists|c: Seq<SqlValue>|
                row_cells_ok(c) && row_from_cells(row, c),
    {
        let params: Vec<SqlParam> = Vec::new();
        match query_rows(
            self.conn,
            "SELECT id, name, tags, audio_file, created_at, author_id, author_name, author_global_name, play_count, last_played_at, pinned FROM audio ORDER BY RANDOM() LIMIT 1",
            &params,
            ROW_COLUMNS,
        ) {
            Ok(rows) => {
                if rows.len() == 0 {
                    Ok(None)
                } else {
                    match decode_row(&rows[0]) {
                        Some(row) => Ok(Some(row)),
                        None => Err(StoreError::Failed(String::from_str("malformed audio row"))),
                    }
                }
            },
            Err(e) => Err(store_error(e)),
        }
    }

    /// Names for a partly typed one, at most `limit` (five when not given).
    /// Under three characters the latest added names are offered; otherwise
    /// names whose name or tags hold the text, as one full-text phrase. A
    /// failing query offers nothing.
    pub fn fts_autocomplete_track_names(&self, partial: &str, limit: Option<usize>) -> (r: Vec<
        String,
    >)
        ensures
            r.len() <= match limit {
                Some(l) => l,
                None => AUTOCOMPLETE_DEFAULT_LIMIT,
            },
    {
        let limit = match limit {
            Some(l) => l,
            None => AUTOCOMPLETE_DEFAULT_LIMIT,
        };
        let (sql, params) = autocomplete_query(partial, limit);
        match query_rows(self.conn, sql, &params, 1) {
            Ok(rows) => names_of(&rows, limit),
            Err(_) => Vec::new(),
        }
    }
}

} // verus!
