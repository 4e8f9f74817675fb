//! Paging through the catalog: one bounded query per page, with an optional
//! full-text filter, pin filter and cap on the total number of rows.

use vstd::prelude::*;
use vstd::string::*;
use crate::catalog::{
    decode_row, fts_phrase, fts_phrase_spec, order_sql, row_cells_ok, row_from_cells,
    AudioTableOrderBy, AudioTableRow, Order, ROW_COLUMNS,
};
use crate::codec::DisplayType;
use crate::paging::{capped_count, page_window, page_window_spec, paginate_info_spec, PaginateInfo};
use crate::store::{query_rows, store_error, DbConnection, SqlParam, SqlValue, StoreError};

verus! {

/// Pages through the catalog. `offset` moves on by the number of rows each
/// page actually held.
pub struct AudioTablePaginator<'a> {
    pub conn: &'a DbConnection,
    pub order_by: AudioTableOrderBy,
    pub page_limit: u64,
    pub offset: u64,
    pub fts_filter: Option<String>,
    pub pinned: Option<bool>,
    /// Cap on the rows of the whole list: only its first `limit` rows count.
    pub limit: Option<u64>,
}

pub open spec fn rows_select() -> Seq<char> {
    "SELECT audio.id, audio.name, audio.tags, audio.audio_file, audio.created_at, audio.author_id, audio.author_name, audio.author_global_name, audio.play_count, audio.last_played_at, audio.pinned FROM audio"@
}

pub open spec fn count_select() -> Seq<char> {
    "SELECT COUNT(*) FROM (SELECT audio.id FROM audio"@
}

pub open spec fn fts_join() -> Seq<char> {
    " INNER JOIN fts5_audio(?) AS fts ON audio.id = fts.rowid"@
}

pub open spec fn pinned_where() -> Seq<char> {
    " WHERE audio.pinned = ?"@
}

pub open spec fn opt_text(b: bool, s: Seq<char>) -> Seq<char> {
    if b {
        s
    } else {
        Seq::empty()
    }
}

/// The statement of one page: the rows matching the filters, in order, from
/// an offset and at most a window's worth.
pub open spec fn page_sql(fts: bool, pinned: bool, order: AudioTableOrderBy) -> Seq<char> {
    rows_select() + opt_text(fts, fts_join()) + opt_text(pinned, pinned_where())
        + " ORDER BY audio."@ + order_sql(order) + " LIMIT ? OFFSET ?"@
}

/// The statement counting the rows matching the filters, within the cap.
pub open spec fn count_sql(fts: bool, pinned: bool, capped: bool) -> Seq<char> {
    count_select() + opt_text(fts, fts_join()) + opt_text(pinned, pinned_where()) + opt_text(
        capped,
        " LIMIT ?"@,
    ) + ")"@
}

/// The parameters of the filters: the full-text phrase, then the pin.
pub open spec fn filter_params_ok(p: Seq<SqlParam>, fts: Option<String>, pinned: Option<bool>) -> bool {
    let n_fts: int = if fts is Some {
        1
    } else {
        0
    };
    &&& p.len() == n_fts + if pinned is Some {
        1int
    } else {
        0
    }
    &&& (fts matches Some(f) ==> (p[0] matches SqlParam::Text(t) && t@ == fts_phrase_spec(f@)))
    &&& (pinned matches Some(b) ==> p[n_fts] == SqlParam::Integer(
        if b {
            1
        } else {
            0
        },
    ))
}

pub open spec fn sat_i64(n: u64) -> i64 {
    if n > i64::MAX {
        i64::MAX
    } else {
        n as i64
    }
}

pub open spec fn filter_len(fts: Option<String>, pinned: Option<bool>) -> int {
    (if fts is Some {
        1int
    } else {
        0
    }) + if pinned is Some {
        1int
    } else {
        0
    }
}

/// The count a count query hands back: one non-negative integer in the first
/// cell of the first row.
pub open spec fn count_cell(rows: Seq<Vec<SqlValue>>) -> Option<u64> {
    if rows.len() > 0 && rows[0]@.len() > 0 {
        match rows[0]@[0] {
            SqlValue::Integer(c) => if c >= 0 {
                Some(c as u64)
            } else {
                None
            },
            _ => None,
        }
    } else {
        None
    }
}

/// Reads the count from the rows of a count query and cuts it to the cap.
pub fn count_of_rows(rows: &Vec<Vec<SqlValue>>, limit: Option<u64>) -> (r: Result<u64, StoreError>)
    ensures
        match count_cell(rows@) {
            Some(c) => r matches Ok(n) && n == capped_count(c, limit),
            None => r is Err,
        },
{
    if rows.len() == 0 || rows[0].len() == 0 {
        return Err(StoreError::Failed(String::from_str("row count returned no row")));
    }
    let count: u64 = match &rows[0][0] {
        SqlValue::Integer(c) => {
            if *c < 0 {
                return Err(StoreError::Failed(String::from_str("negative row count")));
            }
            *c as u64
        },
        _ => return Err(StoreError::Failed(String::from_str("row count is no integer"))),
    };
    match limit {
        Some(l) => {
            if count > l {
                Ok(l)
            } else {
                Ok(count)
            }
        },
        None => Ok(count),
    }
}

/// Whether a row's cells pass the pin filter.
pub open spec fn row_pin_ok(c: Seq<SqlValue>, pinned: Option<bool>) -> bool {
    match pinned {
        None => true,
        Some(b) => c[10] matches SqlValue::Integer(p) && (p != 0) == b,
    }
}

/// The positions of the rows that decode and pass the pin filter, in order.
pub open spec fn kept_indices(rows: Seq<Vec<SqlValue>>, pinned: Option<bool>) -> Seq<int>
    decreases rows.len(),
{
    if rows.len() == 0 {
        Seq::empty()
    } else {
        let k = kept_indices(rows.drop_last(), pinned);
        if row_cells_ok(rows.last()@) && row_pin_ok(rows.last()@, pinned) {
            k.push(rows.len() - 1)
        } else {
            k
        }
    }
}

pub proof fn lemma_kept_indices(rows: Seq<Vec<SqlValue>>, pinned: Option<bool>)
    ensures
        forall|j: int|
            0 <= j < kept_indices(rows, pinned).len() ==> {
                let x = #[trigger] kept_indices(rows, pinned)[j];
                &&& 0 <= x < rows.len()
                &&& row_cells_ok(rows[x]@)
                &&& row_pin_ok(rows[x]@, pinned)
            },
    decreases rows.len(),
{
    if rows.len() > 0 {
        let p = rows.drop_last();
        lemma_kept_indices(p, pinned);
        let k = kept_indices(p, pinned);
        assert forall|j: int| 0 <= j < k.len() implies rows[#[trigger] k[j]] == p[k[j]] by {}
    }
}

/// The page the rows give: the decoded rows that pass the pin filter, in
/// order, at most `keep` of them.
pub open spec fn page_rows_ok(
    page: Seq<AudioTableRow>,
    rows: Seq<Vec<SqlValue>>,
    keep: int,
    pinned: Option<bool>,
) -> bool {
    let k = kept_indices(rows, pinned);
    &&& page.len() == if keep < k.len() {
        keep
    } else {
        k.len() as int
    }
    &&& forall|j: int| 0 <= j < page.len() ==> row_from_cells(#[trigger] page[j], rows[k[j]]@)
}

pub fn page_of_rows(rows: &Vec<Vec<SqlValue>>, keep: u64, pinned: Option<bool>) -> (r: Vec<
    AudioTableRow,
>)
    ensures
        page_rows_ok(r@, rows@, keep as int, pinned),
{
    let mut page: Vec<AudioTableRow> = Vec::new();
    let mut i: usize = 0;
    while i < rows.len()
        invariant
            i <= rows.len(),
            page.len() <= keep,
            page_rows_ok(page@, rows@.subrange(0, i as int), keep as int, pinned),
        decreases rows.len() - i,
    {
        let ghost sub = rows@.subrange(0, i as int);
        let ghost sub2 = rows@.subrange(0, i + 1);
        let ghost old_page = page@;
        proof {
            assert(sub2.drop_last() =~= sub);
            assert(sub2.last() == rows@[i as int]);
            lemma_kept_indices(sub, pinned);
        }
        if (page.len() as u64) < keep {
            if let Some(row) = decode_row(&rows[i]) {
                let wanted = match pinned {
                    Some(p) => row.pinned == p,
                    None => true,
                };
                if wanted {
                    page.push(row);
                }
            }
        }
        proof {
            let k = kept_indices(sub, pinned);
            let k2 = kept_indices(sub2, pinned);
            assert forall|j: int| 0 <= j < page@.len() implies row_from_cells(
                #[trigger] page@[j],
                sub2[k2[j]]@,
            ) by {
                if j < old_page.len() {
                    assert(k2[j] == k[j]);
                    assert(sub2[k[j]] == sub[k[j]]);
                    assert(page@[j] == old_page[j]);
                }
            }
        }
        i += 1;
    }
    assert(rows@.subrange(0, rows.len() as int) =~= rows@);
    page
}

fn saturating_i64(n: u64) -> (r: i64)
    ensures
        r == sat_i64(n),
{
    if n > i64::MAX as u64 {
        i64::MAX
    } else {
        n as i64
    }
}

impl<'a> AudioTablePaginator<'a> {
    pub fn builder(conn: &'a DbConnection) -> (r: AudioTablePaginatorBuilder<'a>)
        ensures
            r == AudioTablePaginatorBuilder::new_spec(conn),
    {
        AudioTablePaginatorBuilder::new(conn)
    }

    fn append_filters(&self, sql: &mut String)
        ensures
            final(sql)@ == old(sql)@ + opt_text(self.fts_filter is Some, fts_join()) + opt_text(
                self.pinned is Some,
                pinned_where(),
            ),
    {
        if self.fts_filter.is_some() {
            sql.append(" INNER JOIN fts5_audio(?) AS fts ON audio.id = fts.rowid");
        }
        if self.pinned.is_some() {
            sql.append(" WHERE audio.pinned = ?");
        }
        assert(final(sql)@ =~= old(sql)@ + opt_text(self.fts_filter is Some, fts_join()) + opt_text(
            self.pinned is Some,
            pinned_where(),
        ));
    }

    /// The filter parameters, escaped: the search text goes in as one quoted
    /// phrase so that nothing in it is read as full-text syntax.
    pub fn filter_params(&self) -> (r: Vec<SqlParam>)
        ensures
            filter_params_ok(r@, self.fts_filter, self.pinned),
    {
        let mut p: Vec<SqlParam> = Vec::new();
        if let Some(f) = &self.fts_filter {
            p.push(SqlParam::Text(fts_phrase(f.as_str())));
        }
        if let Some(b) = self.pinned {
            p.push(
                SqlParam::Integer(
                    if b {
                        1
                    } else {
                        0
                    },
                ),
            );
        }
        p
    }

    /// The statement of a page.
    pub fn page_statement(&self) -> (r: String)
        ensures
            r@ == page_sql(self.fts_filter is Some, self.pinned is Some, self.order_by),
    {
        let mut sql = String::from_str(
            "SELECT audio.id, audio.name, audio.tags, audio.audio_file, audio.created_at, audio.author_id, audio.author_name, audio.author_global_name, audio.play_count, audio.last_played_at, audio.pinned FROM audio",
        );
        self.append_filters(&mut sql);
        sql.append(" ORDER BY audio.");
        let order = self.order_by.to_sql_str();
        sql.append(order.as_str());
        sql.append(" LIMIT ? OFFSET ?");
        sql
    }

    /// The statement counting the rows.
    pub fn count_statement(&self) -> (r: String)
        ensures
            r@ == count_sql(self.fts_filter is Some, self.pinned is Some, self.limit is Some),
    {
        let mut sql = String::from_str("SELECT COUNT(*) FROM (SELECT audio.id FROM audio");
        self.append_filters(&mut sql);
        let ghost before = sql@;
        if self.limit.is_some() {
            sql.append(" LIMIT ?");
        }
        sql.append(")");
        assert(sql@ =~= before + opt_text(self.limit is Some, " LIMIT ?"@) + ")"@);
        sql
    }

    /// The parameters of the count statement: the filters, then the cap.
    pub fn count_params(&self) -> (r: Vec<SqlParam>)
        ensures
            ({
                let fl = filter_len(self.fts_filter, self.pinned);
                &&& filter_params_ok(r@.subrange(0, fl), self.fts_filter, self.pinned)
                &&& match self.limit {
                    Some(l) => r@.len() == fl + 1 && r@[fl] == SqlParam::Integer(sat_i64(l)),
                    None => r@.len() == fl,
                }
            }),
    {
        let mut params = self.filter_params();
        let ghost f = params@;
        if let Some(l) = self.limit {
            params.push(SqlParam::Integer(saturating_i64(l)));
        }
        assert(params@.subrange(0, f.len() as int) =~= f);
        params
    }

    /// The parameters of the page statement: the filters, then the page
    /// size and the offset.
    pub fn page_params(&self, window: u64) -> (r: Vec<SqlParam>)
        requires
            self.offset <= i64::MAX,
        ensures
            ({
                let fl = filter_len(self.fts_filter, self.pinned);
                &&& filter_params_ok(r@.subrange(0, fl), self.fts_filter, self.pinned)
                &&& r@.len() == fl + 2
                &&& r@[fl] == SqlParam::Integer(sat_i64(window))
                &&& r@[fl + 1] == SqlParam::Integer(self.offset as i64)
            }),
    {
        let mut params = self.filter_params();
        let ghost f = params@;
        params.push(SqlParam::Integer(saturating_i64(window)));
        params.push(SqlParam::Integer(self.offset as i64));
        assert(params@.subrange(0, f.len() as int) =~= f);
        params
    }

    /// How many rows the list holds, within the cap: the smaller of the
    /// count the query returns and the cap (see `count_of_rows`).
    pub fn row_count(&self) -> (r: Result<u64, StoreError>)
        ensures
            r matches Ok(n) ==> n == capped_count(n, self.limit),
            r matches Ok(n) ==> exists|c: u64| n == capped_count(c, self.limit),
    {
        let sql = self.count_statement();
        let params = self.count_params();
        let rows = match query_rows(self.conn, sql.as_str(), &params, 1) {
            Ok(rows) => rows,
            Err(e) => return Err(store_error(e)),
        };
        let r = count_of_rows(&rows, self.limit);
        if let Ok(n) = r {
            let ghost c = count_cell(rows@)->Some_0;
            assert(n == capped_count(c, self.limit));
        }
        r
    }

    /// Where the current page stands in the list. A zero page limit is an
    /// error.
    pub fn pageinate_info(&self) -> (r: Result<PaginateInfo, StoreError>)
        ensures
            self.page_limit == 0 ==> r is Err,
            r matches Ok(info) ==> info == paginate_info_spec(
                info.total_row_count,
                self.offset,
                self.page_limit,
            ),
            r matches Ok(info) ==> info.total_row_count == capped_count(
                info.total_row_count,
                self.limit,
            ),
    {
        if self.page_limit == 0 {
            return Err(StoreError::Failed(String::from_str("page limit must be positive")));
        }
        match self.row_count() {
            Ok(n) => Ok(PaginateInfo::compute(n, self.offset, self.page_limit)),
            Err(e) => Err(e),
        }
    }

    /// Fetches the page at `offset` and moves `offset` past it. A page wholly
    /// past the cap, or an offset no table can reach, is empty without a
    /// query. Only rows that pass the pin filter are kept.
    pub fn next_page(&mut self) -> (r: Result<Vec<AudioTableRow>, StoreError>)
        ensures
            final(self).conn == old(self).conn,
            final(self).order_by == old(self).order_by,
            final(self).page_limit == old(self).page_limit,
            final(self).fts_filter == old(self).fts_filter,
            final(self).pinned == old(self).pinned,
            final(self).limit == old(self).limit,
            page_window_spec(old(self).offset, old(self).page_limit, old(self).limit) is None ==> (r
                matches Ok(rows) && rows.len() == 0),
            r matches Ok(rows) ==> final(self).offset == old(self).offset + rows.len(),
            r matches Ok(rows) ==> (page_window_spec(
                old(self).offset,
                old(self).page_limit,
                old(self).limit,
            ) matches Some(w) && rows.len() <= w) || rows.len() == 0,
            r matches Ok(rows) ==> (old(self).pinned matches Some(p) ==> forall|i: int|
                0 <= i < rows.len() ==> (#[trigger] rows[i]).pinned == p),
            r is Err ==> final(self).offset == old(self).offset,
    {
        let window = match page_window(self.offset, self.page_limit, self.limit) {
            Some(w) => w,
            None => return Ok(Vec::new()),
        };
        if self.offset > i64::MAX as u64 {
            return Ok(Vec::new());
        }
        let sql = self.page_statement();
        let params = self.page_params(window);
        let rows = match query_rows(self.conn, sql.as_str(), &params, ROW_COLUMNS) {
            Ok(rows) => rows,
            Err(e) => return Err(store_error(e)),
        };
        let room: u64 = u64::MAX - self.offset;
        let keep: u64 = if window < room {
            window
        } else {
            room
        };
        let page = page_of_rows(&rows, keep, self.pinned);
        proof {
            lemma_kept_indices(rows@, self.pinned);
            let k = kept_indices(rows@, self.pinned);
            assert forall|j: int| 0 <= j < page@.len() implies (self.pinned matches Some(p) ==> (
            #[trigger] page@[j]).pinned == p) by {
                assert(row_from_cells(page@[j], rows@[k[j]]@));
                assert(row_pin_ok(rows@[k[j]]@, self.pinned));
            }
        }
        self.offset = self.offset + page.len() as u64;
        Ok(page)
    }

    /// The next page that holds rows; `None` once the list is exhausted or a
    /// query fails.
    pub fn next(&mut self) -> (r: Option<Result<Vec<AudioTableRow>, StoreError>>)
        ensures
            r matches Some(Ok(rows)) ==> rows.len() > 0 && final(self).offset == old(self).offset
                + rows.len(),
            r is None ==> final(self).offset == old(self).offset,
            final(self).page_limit == old(self).page_limit,
            final(self).limit == old(self).limit,
    {
        match self.next_page() {
            Ok(rows) => {
                if rows.len() == 0 {
                    None
                } else {
                    Some(Ok(rows))
                }
            },
            Err(_) => None,
        }
    }
}

/// The sort order of each named list.
pub open spec fn preset_order(k: DisplayType) -> AudioTableOrderBy {
    match k {
        DisplayType::All => AudioTableOrderBy::Id(Order::Asc),
        DisplayType::RecentlyAdded => AudioTableOrderBy::CreatedAt(Order::Desc),
        DisplayType::MostPlayed => AudioTableOrderBy::PlayCount(Order::Desc),
        DisplayType::Pinned => AudioTableOrderBy::Name(Order::Asc),
        DisplayType::Search => AudioTableOrderBy::Id(Order::Asc),
    }
}

/// The page size of each named list: the pinned list keeps the builder's 500.
pub open spec fn preset_page_limit(k: DisplayType) -> u64 {
    match k {
        DisplayType::Pinned => 500,
        _ => TEMPLATE_PAGE_LIMIT,
    }
}

pub open spec fn preset_pinned(k: DisplayType) -> Option<bool> {
    match k {
        DisplayType::Pinned => Some(true),
        _ => None,
    }
}

/// Builds a paginator: sorted by id ascending, 500 rows a page, from the
/// start, unfiltered and uncapped unless set.
pub struct AudioTablePaginatorBuilder<'a> {
    pub paginator: AudioTablePaginator<'a>,
}

/// The rows a page of a named list shows.
pub const TEMPLATE_PAGE_LIMIT: u64 = 20;

impl<'a> AudioTablePaginatorBuilder<'a> {
    pub open spec fn new_spec(conn: &'a DbConnection) -> AudioTablePaginatorBuilder<'a> {
        AudioTablePaginatorBuilder {
            paginator: AudioTablePaginator {
                conn,
                order_by: AudioTableOrderBy::Id(Order::Asc),
                page_limit: 500,
                offset: 0,
                fts_filter: None,
                pinned: None,
                limit: None,
            },
        }
    }

    pub fn new(conn: &'a DbConnection) -> (r: AudioTablePaginatorBuilder<'a>)
        ensures
            r == Self::new_spec(conn),
    {
        AudioTablePaginatorBuilder {
            paginator: AudioTablePaginator {
                conn,
                order_by: AudioTableOrderBy::Id(Order::Asc),
                page_limit: 500,
                offset: 0,
                fts_filter: None,
                pinned: None,
                limit: None,
            },
        }
    }

    /// Newest first, twenty a page.
    pub fn most_recently_added_template(conn: &'a DbConnection) -> (r: AudioTablePaginatorBuilder<
        'a,
    >)
        ensures
            r.paginator == (AudioTablePaginator {
                order_by: AudioTableOrderBy::CreatedAt(Order::Desc),
                page_limit: TEMPLATE_PAGE_LIMIT,
                ..Self::new_spec(conn).paginator
            }),
    {
        Self::new(conn).order_by(AudioTableOrderBy::CreatedAt(Order::Desc)).page_limit(
            TEMPLATE_PAGE_LIMIT,
        )
    }

    /// Most played first, twenty a page.
    pub fn most_played_template(conn: &'a DbConnection) -> (r: AudioTablePaginatorBuilder<'a>)
        ensures
            r.paginator == (AudioTablePaginator {
                order_by: AudioTableOrderBy::PlayCount(Order::Desc),
                page_limit: TEMPLATE_PAGE_LIMIT,
                ..Self::new_spec(conn).paginator
            }),
    {
        Self::new(conn).order_by(AudioTableOrderBy::PlayCount(Order::Desc)).page_limit(
            TEMPLATE_PAGE_LIMIT,
        )
    }

    /// Rows whose name or tags hold the text, in the order they were added,
    /// twenty a page.
    pub fn search_template(conn: &'a DbConnection, fts_filter: &str) -> (r:
        AudioTablePaginatorBuilder<'a>)
        ensures
            r.paginator.conn == conn,
            r.paginator.fts_filter matches Some(f) && f@ == fts_filter@,
            r.paginator.order_by == AudioTableOrderBy::Id(Order::Asc),
            r.paginator.page_limit == TEMPLATE_PAGE_LIMIT,
            r.paginator.offset == 0,
            r.paginator.pinned is None,
            r.paginator.limit is None,
    {
        Self::new(conn).fts_filter(Some(String::from_str(fts_filter))).page_limit(
            TEMPLATE_PAGE_LIMIT,
        )
    }

    /// All rows by id, twenty a page.
    pub fn all_template(conn: &'a DbConnection) -> (r: AudioTablePaginatorBuilder<'a>)
        ensures
            r.paginator == (AudioTablePaginator {
                page_limit: TEMPLATE_PAGE_LIMIT,
                ..Self::new_spec(conn).paginator
            }),
    {
        Self::new(conn).page_limit(TEMPLATE_PAGE_LIMIT)
    }

    /// Pinned rows by name.
    pub fn pinned_template(conn: &'a DbConnection) -> (r: AudioTablePaginatorBuilder<'a>)
        ensures
            r.paginator == (AudioTablePaginator {
                pinned: Some(true),
                order_by: AudioTableOrderBy::Name(Order::Asc),
                ..Self::new_spec(conn).paginator
            }),
    {
        Self::new(conn).pinned(Some(true)).order_by(AudioTableOrderBy::Name(Order::Asc))
    }

    /// The template of a list; `search` is used by `Search` alone.
    pub fn template(conn: &'a DbConnection, display_type: DisplayType, search: &str) -> (r:
        AudioTablePaginatorBuilder<'a>)
        ensures
            r.paginator.conn == conn,
            r.paginator.order_by == preset_order(display_type),
            r.paginator.page_limit == preset_page_limit(display_type),
            r.paginator.pinned == preset_pinned(display_type),
            r.paginator.offset == 0,
            r.paginator.limit is None,
            display_type == DisplayType::Search ==> (r.paginator.fts_filter matches Some(f)
                && f@ == search@),
            display_type != DisplayType::Search ==> r.paginator.fts_filter is None,
    {
        match display_type {
            DisplayType::All => Self::all_template(conn),
            DisplayType::RecentlyAdded => Self::most_recently_added_template(conn),
            DisplayType::MostPlayed => Self::most_played_template(conn),
            DisplayType::Pinned => Self::pinned_template(conn),
            DisplayType::Search => Self::search_template(conn, search),
        }
    }

    pub fn order_by(self, value: AudioTableOrderBy) -> (r: AudioTablePaginatorBuilder<'a>)
        ensures
            r.paginator == (AudioTablePaginator { order_by: value, ..self.paginator }),
    {
        AudioTablePaginatorBuilder { paginator: AudioTablePaginator { order_by: value, ..self.paginator } }
    }

    pub fn page_limit(self, value: u64) -> (r: AudioTablePaginatorBuilder<'a>)
        ensures
            r.paginator == (AudioTablePaginator { page_limit: value, ..self.paginator }),
    {
        AudioTablePaginatorBuilder {
            paginator: AudioTablePaginator { page_limit: value, ..self.paginator },
        }
    }

    pub fn fts_filter(self, value: Option<String>) -> (r: AudioTablePaginatorBuilder<'a>)
        ensures
            r.paginator == (AudioTablePaginator { fts_filter: value, ..self.paginator }),
    {
        AudioTablePaginatorBuilder {
            paginator: AudioTablePaginator { fts_filter: value, ..self.paginator },
        }
    }

    pub fn pinned(self, value: Option<bool>) -> (r: AudioTablePaginatorBuilder<'a>)
        ensures
            r.paginator == (AudioTablePaginator { pinned: value, ..self.paginator }),
    {
        AudioTablePaginatorBuilder { paginator: AudioTablePaginator { pinned: value, ..self.paginator } }
    }

    pub fn limit(self, value: Option<u64>) -> (r: AudioTablePaginatorBuilder<'a>)
        ensures
            r.paginator == (AudioTablePaginator { limit: value, ..self.paginator }),
    {
        AudioTablePaginatorBuilder { paginator: AudioTablePaginator { limit: value, ..self.paginator } }
    }

    pub fn offset(self, value: u64) -> (r: AudioTablePaginatorBuilder<'a>)
        ensures
            r.paginator == (AudioTablePaginator { offset: value, ..self.paginator }),
    {
        AudioTablePaginatorBuilder { paginator: AudioTablePaginator { offset: value, ..self.paginator } }
    }

    pub fn build(self) -> (r: AudioTablePaginator<'a>)
        ensures
            r == self.paginator,
    {
        self.paginator
    }
}

} // verus!
