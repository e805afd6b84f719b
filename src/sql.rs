//! The repositories: schema management and the reads and writes of
//! sources, groups, channels, headers and settings. Each operation takes the
//! connection it runs on; the caller owns the pool. Every statement comes
//! from a builder of [`crate::statements`], and every result row is decoded
//! by a function of [`crate::rows`].
use crate::cache::GroupCache;
use crate::db::{execute, execute_batch, last_insert_rowid, migrate_to_latest, query_rows, SqlValue};
use crate::media_type;
use crate::query::{
    admits_category, admits_channel, bound_of, browses_categories, category_admitted,
    channel_admitted, compile_channel_query, compile_group_query, is_category_browse, Bound,
    SqlQuery,
};
use crate::rows::{
    category_fields, channel_fields, channel_row_ok, custom_channel_fields, custom_channel_row_ok,
    decode_rows, group_fields, group_row_ok, headers_fields, headers_row_ok, id_name_fields,
    is_id_name_row, is_setting_row, lemma_filter_step, opt_view, row_to_channel,
    row_to_channel_headers, row_to_custom_channel, row_to_custom_group, row_to_group,
    row_to_id_name, row_to_setting, row_to_source, setting_fields, source_fields, source_row_ok,
};
use crate::source_type;
use crate::statements::{
    DELETE_HEADERS, DELETE_SOURCE, DELETE_SOURCE_CHANNELS, DELETE_SOURCE_GROUPS, UPSERT_HEADERS, channel_count_statement, channel_lookup_statement, delete_channel_statement, delete_group_statement, delete_headers_statement, delete_source_channels_statement, delete_source_groups_statement, delete_source_row_statement, edit_channel_statement, edit_group_statement, enabled_sources_statement, favorite_statement, group_auto_complete_statement, group_by_id_statement, group_channel_statement, group_lookup_statement, groups_of_source_statement, headers_of_channel_statement, insert_channel_statement, insert_custom_group_statement, insert_group_statement, insert_headers_statement, insert_source_statement, lookup_source_statement, move_group_channels_statement, refresh_channels_statement, refresh_groups_statement, series_episode_statement, set_enabled_statement, settings_statement, source_name_statement, source_of_series_statement, sources_statement, structure_statement, upsert_headers_statement, upsert_setting_statement,
};
use crate::types::{
    Channel, ChannelHttpHeaders, CustomChannel, CustomChannelExtraData, ExportedGroup, Filters,
    Group, IdName, Source,
};
use rusqlite::Connection;
use vstd::prelude::*;

verus! {

/// Why an operation on the store failed.
#[derive(Debug)]
pub enum DbError {
    /// SQLite refused a statement: a constraint, a lock, a missing table.
    Sqlite(rusqlite::Error),
    /// A schema migration failed; the store must not be used.
    Migration(rusqlite_migration::Error),
    /// A write that had to touch exactly one row touched another number.
    NotFound,
    /// An insert of a group changed no row.
    GroupNotInserted,
    /// A page number below 1.
    InvalidPage,
    /// A row whose columns do not have the expected types.
    Malformed,
}

pub const BASELINE: &'static str = "
CREATE TABLE \"sources\" (
  \"id\"          INTEGER PRIMARY KEY,
  \"name\"        varchar(100),
  \"source_type\" integer,
  \"url\"         varchar(500),
  \"username\"    varchar(100),
  \"password\"    varchar(100),
  \"enabled\"     integer DEFAULT 1
);

CREATE TABLE \"channels\" (
  \"id\" INTEGER PRIMARY KEY,
  \"name\" varchar(100),
  \"image\" varchar(500),
  \"url\" varchar(500),
  \"media_type\" integer,
  \"source_id\" integer,
  \"favorite\" integer,
  \"series_id\" integer,
  \"group_id\" integer,
  FOREIGN KEY (source_id) REFERENCES sources(id)
  FOREIGN KEY (group_id) REFERENCES groups(id)
);

CREATE TABLE \"settings\" (
  \"key\" VARCHAR(50) PRIMARY KEY,
  \"value\" VARCHAR(100)
);

CREATE TABLE \"groups\" (
  \"id\" INTEGER PRIMARY KEY,
  \"name\" varchar(100),
  \"image\" varchar(500),
  \"source_id\" integer,
  FOREIGN KEY (source_id) REFERENCES sources(id)
);

CREATE INDEX index_channel_name ON channels(name);
CREATE UNIQUE INDEX channels_unique ON channels(name, url);

CREATE UNIQUE INDEX index_source_name ON sources(name);
CREATE INDEX index_source_enabled ON sources(enabled);

CREATE UNIQUE INDEX index_group_unique ON groups(name, source_id);
CREATE INDEX index_group_name ON groups(name);

CREATE INDEX index_channel_source_id ON channels(source_id);
CREATE INDEX index_channel_favorite ON channels(favorite);
CREATE INDEX index_channel_series_id ON channels(series_id);
CREATE INDEX index_channel_group_id ON channels(group_id);
CREATE INDEX index_channel_media_type ON channels(media_type);

CREATE INDEX index_group_source_id ON groups(source_id);
";

/// Per-channel headers, a channel's uniqueness over its source, and the
/// program-guide flag of sources.
pub const MIGRATION_HEADERS: &'static str = "
DROP INDEX IF EXISTS channels_unique;
CREATE UNIQUE INDEX channels_unique ON channels(name, url, source_id);
CREATE TABLE IF NOT EXISTS \"channel_http_headers\" (
    \"id\" INTEGER PRIMARY KEY,
    \"channel_id\" integer,
    \"referrer\" varchar(500),
    \"user_agent\" varchar(500),
    \"http_origin\" varchar(500),
    \"ignore_ssl\" integer DEFAULT 0,
    FOREIGN KEY (channel_id) REFERENCES channels(id) ON DELETE CASCADE
);
CREATE UNIQUE INDEX IF NOT EXISTS index_channel_http_headers_channel_id ON channel_http_headers(channel_id);
ALTER TABLE sources ADD COLUMN use_tvg_id integer;
UPDATE sources SET use_tvg_id = 1 WHERE source_type in (0,1);
";

pub const DROP_TABLES: &'static str = "DROP TABLE channels; DROP TABLE groups; DROP TABLE sources; DROP TABLE settings;";

pub const BEGIN: &'static str = "BEGIN";

pub const COMMIT: &'static str = "COMMIT";

pub const ROLLBACK: &'static str = "ROLLBACK";

/// Runs a statement and reports the number of changed rows.
fn run(conn: &Connection, q: &SqlQuery) -> (r: Result<usize, DbError>)
    ensures
        fails_in_sqlite(r),
{
    match execute(conn, q.sql.as_str(), &q.params) {
        Ok(n) => Ok(n),
        Err(e) => Err(DbError::Sqlite(e)),
    }
}

fn run_batch(conn: &Connection, sql: &str) -> (r: Result<(), DbError>)
    ensures
        r is Err ==> r matches Err(DbError::Sqlite(_)),
{
    match execute_batch(conn, sql) {
        Ok(()) => Ok(()),
        Err(e) => Err(DbError::Sqlite(e)),
    }
}

fn fetch(conn: &Connection, sql: &str, params: &Vec<SqlValue>, ncols: usize) -> (r: Result<
    Vec<Vec<SqlValue>>,
    DbError,
>)
    ensures
        r matches Ok(rows) ==> forall|i: int| 0 <= i < rows.len() ==> #[trigger] rows[i].len() == ncols,
        r is Err ==> r matches Err(DbError::Sqlite(_)),
{
    match query_rows(conn, sql, params, ncols) {
        Ok(rows) => Ok(rows),
        Err(e) => Err(DbError::Sqlite(e)),
    }
}

/// Runs a query and reads `ncols` columns of each row.
fn fetch_query(conn: &Connection, q: &SqlQuery, ncols: usize) -> (r: Result<Vec<Vec<SqlValue>>, DbError>)
    ensures
        r matches Ok(rows) ==> forall|i: int| 0 <= i < rows.len() ==> #[trigger] rows[i].len() == ncols,
        fails_in_sqlite(r),
{
    fetch(conn, q.sql.as_str(), &q.params, ncols)
}

/// Whether a lookup returned a row.
pub fn has_row(rows: &Vec<Vec<SqlValue>>) -> (r: bool)
    ensures
        r == (rows@.len() > 0),
{
    rows.len() > 0
}

/// Runs a lookup; true exactly when it returns a row.
fn any_row(conn: &Connection, q: &SqlQuery) -> (r: Result<bool, DbError>)
    ensures
        fails_in_sqlite(r),
{
    let rows = fetch_query(conn, q, 1)?;
    Ok(has_row(&rows))
}

/// The value of an optional text field.
pub fn text_value(o: &Option<String>) -> (r: SqlValue)
    ensures
        bound_of(r) == text_bound(*o),
{
    match o {
        Some(s) => SqlValue::Text(s.clone()),
        None => SqlValue::Null,
    }
}

/// The value of an optional identity.
pub fn int_value(o: Option<i64>) -> (r: SqlValue)
    ensures
        bound_of(r) == int_bound(o),
{
    match o {
        Some(i) => SqlValue::Integer(i),
        None => SqlValue::Null,
    }
}

pub open spec fn flag_bound(b: bool) -> Bound {
    Bound::Int(if b { 1 } else { 0 })
}

/// A flag as SQLite stores it: 1 or 0.
pub fn flag_value(b: bool) -> (r: SqlValue)
    ensures
        bound_of(r) == flag_bound(b),
{
    SqlValue::Integer(if b { 1 } else { 0 })
}

/// The value of an optional flag.
pub fn opt_flag_value(o: Option<bool>) -> (r: SqlValue)
    ensures
        bound_of(r) == opt_flag_bound(o),
{
    match o {
        Some(b) => flag_value(b),
        None => SqlValue::Null,
    }
}

/// A failure, if any, is one that SQLite reported.
pub open spec fn fails_in_sqlite<T>(r: Result<T, DbError>) -> bool {
    r is Err ==> r->Err_0 is Sqlite
}

/// Opens a transaction on the connection.
pub fn begin(conn: &Connection) -> (r: Result<(), DbError>)
    ensures
        fails_in_sqlite(r),
{
    run_batch(conn, BEGIN)
}

/// The statement that ends a transaction: COMMIT after a success, ROLLBACK
/// after a failure.
pub fn tx_end_statement(succeeded: bool) -> (s: &'static str)
    ensures
        s@ == (if succeeded {
            COMMIT@
        } else {
            ROLLBACK@
        }),
{
    if succeeded {
        COMMIT
    } else {
        ROLLBACK
    }
}

/// Ends the open transaction with [`tx_end_statement`]: commits it after a
/// success, and rolls it back after a failure, whose error is then handed
/// back unchanged.
pub fn finish<T>(conn: &Connection, outcome: Result<T, DbError>) -> (r: Result<T, DbError>)
    ensures
        outcome is Err ==> r == outcome,
        r is Ok ==> r == outcome,
        outcome is Ok ==> fails_in_sqlite(r),
{
    let end = tx_end_statement(outcome.is_ok());
    match outcome {
        Ok(v) => {
            run_batch(conn, end)?;
            Ok(v)
        },
        Err(e) => {
            let _ = run_batch(conn, end);
            Err(e)
        },
    }
}

/// Runs `f` inside one transaction: all of its writes, or none. A success
/// is what `f` returned.
pub fn do_tx<F, T>(conn: &Connection, f: F) -> (r: Result<T, DbError>) where
    F: FnOnce(&Connection) -> Result<T, DbError>,

    requires
        f.requires((conn,)),
    ensures
        r is Ok ==> f.ensures((conn,), r),
{
    begin(conn)?;
    let outcome = f(conn);
    finish(conn, outcome)
}

/// Creates the baseline tables and indexes.
pub fn create_structure(conn: &Connection) -> (r: Result<(), DbError>)
    ensures
        fails_in_sqlite(r),
{
    run_batch(conn, BASELINE)
}

/// Whether the baseline tables exist.
pub fn structure_exists(conn: &Connection) -> (r: Result<bool, DbError>)
    ensures
        fails_in_sqlite(r),
{
    any_row(conn, &structure_statement())
}

/// The forward migrations, in the order in which they apply.
pub fn migrations() -> (r: Vec<&'static str>)
    ensures
        r@ == seq![MIGRATION_HEADERS],
{
    let r = vec![MIGRATION_HEADERS];
    assert(r@ =~= seq![MIGRATION_HEADERS]);
    r
}

/// Applies each migration that the ledger does not yet record.
fn apply_migrations(conn: &mut Connection) -> (r: Result<(), DbError>)
    ensures
        r is Err ==> r matches Err(DbError::Migration(_)),
{
    match migrate_to_latest(conn, &migrations()) {
        Ok(()) => Ok(()),
        Err(e) => Err(DbError::Migration(e)),
    }
}

/// Creates the baseline schema where it is absent, then applies the
/// pending migrations.
pub fn create_or_initialize_db(conn: &mut Connection) -> (r: Result<(), DbError>)
    ensures
        r is Err ==> r->Err_0 is Sqlite || r->Err_0 is Migration,
{
    if !structure_exists(conn)? {
        create_structure(conn)?;
    }
    apply_migrations(conn)
}

/// Drops the baseline tables.
pub fn drop_db(conn: &Connection) -> (r: Result<(), DbError>)
    ensures
        fails_in_sqlite(r),
{
    run_batch(conn, DROP_TABLES)
}

/// The identity in the first row of a lookup: none when there is no row.
pub fn first_id(rows: &Vec<Vec<SqlValue>>) -> (r: Result<Option<i64>, DbError>)
    ensures
        rows@.len() == 0 ==> r matches Ok(None),
        rows@.len() > 0 ==> (r is Ok <==> (rows@[0]@.len() > 0 && rows@[0]@[0] is Integer)),
        r matches Ok(Some(id)) ==> rows@.len() > 0 && rows@[0]@[0] == SqlValue::Integer(id),
        rows@.len() > 0 && r is Ok ==> r->Ok_0 is Some,
        r is Err ==> r matches Err(DbError::Malformed),
{
    if rows.len() == 0 {
        return Ok(None);
    }
    if rows[0].len() == 0 {
        return Err(DbError::Malformed);
    }
    match &rows[0][0] {
        SqlValue::Integer(id) => Ok(Some(*id)),
        _ => Err(DbError::Malformed),
    }
}

/// Finds a source by name, or inserts it: a name is never stored twice.
/// Runs inside the caller's transaction.
pub fn create_or_find_source_by_name(conn: &Connection, source: &Source) -> (r: Result<i64, DbError>)
    ensures
        r is Err ==> r->Err_0 is Sqlite || r->Err_0 is Malformed,
{
    let rows = fetch_query(conn, &lookup_source_statement(&source.name), 1)?;
    if let Some(id) = first_id(&rows)? {
        return Ok(id);
    }
    run(conn, &insert_source_statement(source))?;
    Ok(last_insert_rowid(conn))
}

/// Inserts a channel; one whose (name, url, source) is already stored is
/// skipped without error.
pub fn insert_channel(conn: &Connection, channel: Channel) -> (r: Result<(), DbError>)
    ensures
        fails_in_sqlite(r),
{
    run(conn, &insert_channel_statement(&channel))?;
    Ok(())
}

/// Inserts the headers of a channel; a channel that already has headers
/// keeps them.
pub fn insert_channel_headers(conn: &Connection, headers: ChannelHttpHeaders) -> (r: Result<(), DbError>)
    ensures
        fails_in_sqlite(r),
{
    run(conn, &insert_headers_statement(&headers))?;
    Ok(())
}

/// The outcome of an insert-or-ignore of a group: an error when it changed
/// no row, the (name, source) pair being stored already.
pub fn expect_inserted(changed: usize) -> (r: Result<(), DbError>)
    ensures
        r is Ok <==> changed != 0,
        r is Err ==> r matches Err(DbError::GroupNotInserted),
{
    if changed == 0 {
        Err(DbError::GroupNotInserted)
    } else {
        Ok(())
    }
}

/// Inserts a group of a source and returns its identity; fails when the
/// (name, source) pair is already stored.
fn insert_group(conn: &Connection, group: &str, image: &Option<String>, source_id: &i64) -> (r: Result<i64, DbError>)
    ensures
        r is Err ==> r->Err_0 is Sqlite || r->Err_0 is GroupNotInserted,
{
    let changed = run(conn, &insert_group_statement(group, image, *source_id))?;
    expect_inserted(changed)?;
    Ok(last_insert_rowid(conn))
}

/// Resolves a channel's group name to a group identity, inserting the group
/// the first time its name is seen in this import and caching its identity.
pub fn set_channel_group_id(
    groups: &mut GroupCache,
    channel: &mut Channel,
    conn: &Connection,
    source_id: &i64,
) -> (r: Result<(), DbError>)
    requires
        old(groups).wf(),
    ensures
        r is Err ==> r->Err_0 is Sqlite || r->Err_0 is GroupNotInserted,
        final(groups).wf(),
        old(channel).group is None ==> r is Ok && *final(channel) == *old(channel) && final(groups)@
            == old(groups)@,
        old(channel).group is Some && old(groups)@.contains_key(group_name(*old(channel))) ==> {
            &&& r is Ok
            &&& final(groups)@ == old(groups)@
            &&& *final(channel) == (Channel {
                group_id: Some(old(groups)@[group_name(*old(channel))]),
                ..*old(channel)
            })
        },
        old(channel).group is Some && !old(groups)@.contains_key(group_name(*old(channel))) ==> {
            &&& r is Ok ==> exists|id: i64|
                {
                    &&& final(groups)@ == old(groups)@.insert(group_name(*old(channel)), id)
                    &&& *final(channel) == (Channel { group_id: Some(id), ..*old(channel) })
                }
            &&& r is Err ==> final(groups)@ == old(groups)@ && *final(channel) == *old(channel)
        },
{
    match &channel.group {
        None => Ok(()),
        Some(name) => {
            match groups.get(name.as_str()) {
                Some(id) => {
                    channel.group_id = Some(id);
                    Ok(())
                },
                None => {
                    let id = insert_group(conn, name.as_str(), &channel.image, source_id)?;
                    groups.insert(name.clone(), id);
                    channel.group_id = Some(id);
                    Ok(())
                },
            }
        },
    }
}

/// The headers in the first row of a lookup: none when there is no row.
pub fn first_headers(rows: &Vec<Vec<SqlValue>>) -> (r: Result<Option<ChannelHttpHeaders>, DbError>)
    ensures
        rows@.len() == 0 ==> r matches Ok(None),
        rows@.len() > 0 ==> (r is Ok <==> headers_row_ok(rows@[0]@)),
        rows@.len() > 0 && r is Ok ==> r->Ok_0 is Some,
        r matches Ok(Some(h)) ==> headers_fields(rows@[0]@, h),
        r is Err ==> r->Err_0 is Malformed,
{
    if rows.len() == 0 {
        return Ok(None);
    }
    match row_to_channel_headers(&rows[0]) {
        Some(h) => Ok(Some(h)),
        None => Err(DbError::Malformed),
    }
}

/// The headers stored for a channel, if any.
pub fn get_channel_headers_by_id(conn: &Connection, id: i64) -> (r: Result<Option<ChannelHttpHeaders>, DbError>)
    ensures
        r is Err ==> r->Err_0 is Sqlite || r->Err_0 is Malformed,
{
    let rows = fetch_query(conn, &headers_of_channel_statement(id), 6)?;
    first_headers(&rows)
}

/// All stored settings, as key/value pairs.
pub fn get_settings(conn: &Connection) -> (r: Result<Vec<(String, String)>, DbError>)
    ensures
        fails_in_sqlite(r),
{
    let rows = fetch_query(conn, &settings_statement(), 2)?;
    Ok(decode_rows(
        &rows,
        row_to_setting,
        Ghost(|row: Seq<SqlValue>| is_setting_row(row)),
        Ghost(|row: Seq<SqlValue>, kv: (String, String)| setting_fields(row, kv)),
    ))
}

/// Merges the given pairs into the settings in one transaction: each key is
/// inserted or has its value replaced, and other keys keep theirs.
pub fn update_settings(conn: &Connection, map: Vec<(String, String)>) -> (r: Result<(), DbError>)
    ensures
        fails_in_sqlite(r),
{
    begin(conn)?;
    let outcome = upsert_settings(conn, &map);
    finish(conn, outcome)
}

/// Sends [`upsert_setting_statement`] for each pair, in order; stops at the
/// first failure.
fn upsert_settings(conn: &Connection, map: &Vec<(String, String)>) -> (r: Result<(), DbError>)
    ensures
        fails_in_sqlite(r),
{
    let mut i: usize = 0;
    while i < map.len()
        invariant
            i <= map@.len(),
        decreases map.len() - i,
    {
        run(conn, &upsert_setting_statement(&map[i].0, &map[i].1))?;
        i = i + 1;
    }
    Ok(())
}

/// The elements that pass `test` in the context `ctx`, in order.
pub fn keep_matching<C, T, F: Fn(&C, &T) -> bool>(
    ctx: &C,
    v: Vec<T>,
    test: F,
    Ghost(pred): Ghost<spec_fn(C, T) -> bool>,
) -> (r: Vec<T>)
    requires
        forall|c: &C, x: &T| #[trigger] test.requires((c, x)),
        forall|c: &C, x: &T, b: bool| #[trigger] test.ensures((c, x), b) ==> b == pred(*c, *x),
    ensures
        r@ == v@.filter(|x: T| pred(*ctx, x)),
        forall|i: int| 0 <= i < r@.len() ==> pred(*ctx, #[trigger] r@[i]),
{
    let ghost p = |x: T| pred(*ctx, x);
    let ghost orig = v@;
    let mut rest = v;
    let mut r: Vec<T> = Vec::new();
    while rest.len() > 0
        invariant
            rest@.len() <= orig.len(),
            rest@ == orig.subrange(orig.len() - rest@.len(), orig.len() as int),
            r@ == orig.subrange(0, orig.len() - rest@.len()).filter(p),
            p == (|x: T| pred(*ctx, x)),
            forall|c: &C, x: &T| #[trigger] test.requires((c, x)),
            forall|c: &C, x: &T, b: bool| #[trigger] test.ensures((c, x), b) ==> b == pred(*c, *x),
        decreases rest.len(),
    {
        let ghost done = orig.len() - rest@.len();
        proof {
            lemma_filter_step(orig, p, done);
        }
        let x = rest.remove(0);
        assert(x == orig[done]);
        assert(rest@ =~= orig.subrange(orig.len() - rest@.len(), orig.len() as int));
        if test(ctx, &x) {
            r.push(x);
        }
    }
    assert(orig.subrange(0, orig.len() as int) =~= orig);
    assert forall|i: int| 0 <= i < r@.len() implies pred(*ctx, #[trigger] r@[i]) by {
        orig.lemma_filter_pred(p, i);
    }
    r
}

/// One page of a search: categories when the request browses them with no
/// group or series scope, channels otherwise.
pub fn search(conn: &Connection, filters: Filters) -> (r: Result<Vec<Channel>, DbError>)
    ensures
        filters.page == 0 <==> r matches Err(DbError::InvalidPage),
        filters.page >= 1 && filters.source_ids@.len() == 0 ==> r is Ok && r->Ok_0@.len() == 0,
        r is Ok && is_category_browse(filters) ==> forall|i: int|
            0 <= i < r->Ok_0@.len() ==> (#[trigger] r->Ok_0@[i]).media_type == media_type::GROUP
                && r->Ok_0@[i].url is None,
        r is Ok && !is_category_browse(filters) ==> forall|i: int|
            0 <= i < r->Ok_0@.len() ==> (#[trigger] r->Ok_0@[i]).url is Some && admits_channel(
                filters,
                r->Ok_0@[i],
            ),
        r is Ok && is_category_browse(filters) ==> forall|i: int|
            0 <= i < r->Ok_0@.len() ==> admits_category(filters, #[trigger] r->Ok_0@[i]),
        r is Err ==> r->Err_0 is Sqlite || r->Err_0 is InvalidPage,
{
    if browses_categories(&filters) {
        return search_group(conn, filters);
    }
    if filters.page == 0 {
        return Err(DbError::InvalidPage);
    }
    if filters.source_ids.len() == 0 {
        return Ok(Vec::new());
    }
    let q = compile_channel_query(&filters);
    let rows = fetch(conn, q.sql.as_str(), &q.params, 8)?;
    let decoded = decode_rows(
        &rows,
        row_to_channel,
        Ghost(|row: Seq<SqlValue>| channel_row_ok(row)),
        Ghost(|row: Seq<SqlValue>, c: Channel| channel_fields(row, c)),
    );
    Ok(keep_matching(
        &filters,
        decoded,
        channel_admitted,
        Ghost(|f: Filters, c: Channel| admits_channel(f, c)),
    ))
}

/// One page of the groups of the allowed sources, as category rows.
pub fn search_group(conn: &Connection, filters: Filters) -> (r: Result<Vec<Channel>, DbError>)
    ensures
        filters.page == 0 <==> r matches Err(DbError::InvalidPage),
        filters.page >= 1 && filters.source_ids@.len() == 0 ==> r is Ok && r->Ok_0@.len() == 0,
        r is Ok ==> forall|i: int|
            0 <= i < r->Ok_0@.len() ==> (#[trigger] r->Ok_0@[i]).media_type == media_type::GROUP
                && r->Ok_0@[i].url is None && admits_category(filters, r->Ok_0@[i]),
        r is Err ==> r->Err_0 is Sqlite || r->Err_0 is InvalidPage,
{
    if filters.page == 0 {
        return Err(DbError::InvalidPage);
    }
    if filters.source_ids.len() == 0 {
        return Ok(Vec::new());
    }
    let q = compile_group_query(&filters);
    let rows = fetch(conn, q.sql.as_str(), &q.params, 4)?;
    let decoded = decode_rows(
        &rows,
        row_to_group,
        Ghost(|row: Seq<SqlValue>| group_row_ok(row)),
        Ghost(|row: Seq<SqlValue>, c: Channel| category_fields(row, c)),
    );
    Ok(keep_matching(
        &filters,
        decoded,
        category_admitted,
        Ghost(|f: Filters, c: Channel| admits_category(f, c)),
    ))
}

/// Whether any channel belongs to the series.
pub fn series_has_episodes(conn: &Connection, series_id: i64) -> (r: Result<bool, DbError>)
    ensures
        fails_in_sqlite(r),
{
    any_row(conn, &series_episode_statement(series_id))
}

/// Refresh of a source, first step: deletes its channels that are not favorites.
pub fn delete_channels_by_source(conn: &Connection, source_id: i64) -> (r: Result<(), DbError>)
    ensures
        fails_in_sqlite(r),
{
    run(conn, &refresh_channels_statement(source_id))?;
    Ok(())
}

/// Refresh of a source, second step: deletes its groups that no favorite
/// channel points to.
pub fn delete_groups_by_source(conn: &Connection, source_id: i64) -> (r: Result<(), DbError>)
    ensures
        fails_in_sqlite(r),
{
    run(conn, &refresh_groups_statement(source_id))?;
    Ok(())
}

/// The outcome of a write that must touch exactly one row.
pub fn expect_one_row(count: usize) -> (r: Result<(), DbError>)
    ensures
        r is Ok <==> count == 1,
        r is Err ==> r matches Err(DbError::NotFound),
{
    if count != 1 {
        Err(DbError::NotFound)
    } else {
        Ok(())
    }
}

/// The three statements of a source's deletion, in the order they run:
/// its channels, its groups, then the source row.
pub fn delete_source_statements(id: i64) -> (r: (SqlQuery, SqlQuery, SqlQuery))
    ensures
        r.0.sql@ == DELETE_SOURCE_CHANNELS@,
        r.1.sql@ == DELETE_SOURCE_GROUPS@,
        r.2.sql@ == DELETE_SOURCE@,
        r.0.bounds() == seq![Bound::Int(id as int)],
        r.1.bounds() == seq![Bound::Int(id as int)],
        r.2.bounds() == seq![Bound::Int(id as int)],
{
    (delete_source_channels_statement(id), delete_source_groups_statement(id), delete_source_row_statement(id))
}

/// Deletes a source with its channels and groups; a source that is not
/// stored is an error.
pub fn delete_source(conn: &Connection, id: i64) -> (r: Result<(), DbError>)
    ensures
        r is Err ==> r->Err_0 is Sqlite || r->Err_0 is NotFound,
{
    let (channels, groups, source) = delete_source_statements(id);
    run(conn, &channels)?;
    run(conn, &groups)?;
    let count = run(conn, &source)?;
    expect_one_row(count)
}

/// The count in the first row of a COUNT query.
pub fn count_of(rows: &Vec<Vec<SqlValue>>) -> (r: Result<u64, DbError>)
    ensures
        r is Ok <==> (rows@.len() > 0 && rows@[0]@.len() > 0 && rows@[0]@[0] is Integer && rows@[0]@[0]->Integer_0 >= 0),
        r is Ok ==> rows@[0]@[0] == SqlValue::Integer(r->Ok_0 as i64),
        r is Err ==> r matches Err(DbError::Malformed),
{
    if rows.len() == 0 || rows[0].len() == 0 {
        return Err(DbError::Malformed);
    }
    match &rows[0][0] {
        SqlValue::Integer(n) => if *n >= 0 {
            Ok(*n as u64)
        } else {
            Err(DbError::Malformed)
        },
        _ => Err(DbError::Malformed),
    }
}

/// Number of channels stored for a source.
pub fn get_channel_count_by_source(conn: &Connection, id: i64) -> (r: Result<u64, DbError>)
    ensures
        r is Err ==> r->Err_0 is Sqlite || r->Err_0 is Malformed,
{
    let rows = fetch_query(conn, &channel_count_statement(id), 1)?;
    count_of(&rows)
}

/// Whether a source of that name is stored.
pub fn source_name_exists(conn: &Connection, name: &str) -> (r: Result<bool, DbError>)
    ensures
        fails_in_sqlite(r),
{
    any_row(conn, &source_name_statement(name))
}

/// Sets or clears the favorite flag of a channel.
pub fn favorite_channel(conn: &Connection, channel_id: i64, favorite: bool) -> (r: Result<(), DbError>)
    ensures
        fails_in_sqlite(r),
{
    run(conn, &favorite_statement(channel_id, favorite))?;
    Ok(())
}

/// All sources.
pub fn get_sources(conn: &Connection) -> (r: Result<Vec<Source>, DbError>)
    ensures
        fails_in_sqlite(r),
{
    let rows = fetch_query(conn, &sources_statement(), 8)?;
    Ok(decode_rows(
        &rows,
        row_to_source,
        Ghost(|row: Seq<SqlValue>| source_row_ok(row)),
        Ghost(|row: Seq<SqlValue>, s: Source| source_fields(row, s)),
    ))
}

/// Whether a source is enabled; a test that needs no context.
pub fn source_enabled(_none: &(), s: &Source) -> (r: bool)
    ensures
        r == s.enabled,
{
    s.enabled
}

/// The enabled sources.
pub fn get_enabled_sources(conn: &Connection) -> (r: Result<Vec<Source>, DbError>)
    ensures
        fails_in_sqlite(r),
        r is Ok ==> forall|i: int| 0 <= i < r->Ok_0@.len() ==> (#[trigger] r->Ok_0@[i]).enabled,
{
    let rows = fetch_query(conn, &enabled_sources_statement(), 8)?;
    let decoded = decode_rows(
        &rows,
        row_to_source,
        Ghost(|row: Seq<SqlValue>| source_row_ok(row)),
        Ghost(|row: Seq<SqlValue>, s: Source| source_fields(row, s)),
    );
    Ok(keep_matching(&(), decoded, source_enabled, Ghost(|u: (), s: Source| s.enabled)))
}

/// The source in the first row of a lookup: not found when there is no row.
pub fn single_source(rows: &Vec<Vec<SqlValue>>) -> (r: Result<Source, DbError>)
    ensures
        rows@.len() == 0 ==> r matches Err(DbError::NotFound),
        rows@.len() > 0 ==> (r is Ok <==> source_row_ok(rows@[0]@)),
        r matches Ok(s) ==> source_fields(rows@[0]@, s),
        rows@.len() > 0 && r is Err ==> r->Err_0 is Malformed,
{
    if rows.len() == 0 {
        return Err(DbError::NotFound);
    }
    match row_to_source(&rows[0]) {
        Some(s) => Ok(s),
        None => Err(DbError::Malformed),
    }
}

/// The source of the channel whose url holds a series identity.
pub fn get_source_from_series_id(conn: &Connection, series_id: i64) -> (r: Result<Source, DbError>)
    ensures
        r is Err ==> r->Err_0 is Sqlite || r->Err_0 is NotFound || r->Err_0 is Malformed,
{
    let rows = fetch_query(conn, &source_of_series_statement(series_id), 8)?;
    single_source(&rows)
}

/// Enables or disables a source.
pub fn set_source_enabled(conn: &Connection, value: bool, source_id: i64) -> (r: Result<(), DbError>)
    ensures
        fails_in_sqlite(r),
{
    run(conn, &set_enabled_statement(value, source_id))?;
    Ok(())
}

/// Whether a header set overrides nothing.
pub open spec fn headers_are_empty(h: ChannelHttpHeaders) -> bool {
    h.ignore_ssl is None && h.http_origin is None && h.referrer is None && h.user_agent is None
}

/// Whether a header set overrides nothing; such a set is never stored.
pub fn channel_headers_empty(headers: &ChannelHttpHeaders) -> (r: bool)
    ensures
        r == headers_are_empty(*headers),
{
    headers.ignore_ssl.is_none() && headers.http_origin.is_none() && headers.referrer.is_none()
        && headers.user_agent.is_none()
}

/// The headers that are stored with a channel: a non-empty set, or none.
pub fn stored_headers(headers: Option<ChannelHttpHeaders>) -> (r: Option<ChannelHttpHeaders>)
    ensures
        r is Some <==> (headers is Some && !headers_are_empty(headers->Some_0)),
        r is Some ==> r == headers,
{
    match headers {
        Some(h) => if channel_headers_empty(&h) {
            None
        } else {
            Some(h)
        },
        None => None,
    }
}

/// Inserts a channel of a custom source, and then its headers, bound to the
/// new channel's identity, unless they are empty.
pub fn add_custom_channel(conn: &Connection, channel: CustomChannel) -> (r: Result<(), DbError>)
    ensures
        fails_in_sqlite(r),
{
    insert_channel(conn, channel.data)?;
    if let Some(mut headers) = stored_headers(channel.headers) {
        headers.channel_id = Some(last_insert_rowid(conn));
        insert_channel_headers(conn, headers)?;
    }
    Ok(())
}

/// A new, enabled custom source of the given name.
pub fn get_custom_source(name: String) -> (r: Source)
    ensures
        r.name@ == name@,
        r.id is None,
        r.enabled,
        r.username is None && r.password is None && r.url is None && r.url_origin is None,
        r.source_type == source_type::CUSTOM,
        r.use_tvg_id is None,
{
    Source {
        id: None,
        name,
        enabled: true,
        username: None,
        password: None,
        source_type: source_type::CUSTOM,
        url: None,
        url_origin: None,
        use_tvg_id: None,
    }
}

/// Edits a custom channel and its headers in one transaction: on any
/// failure [`finish`] rolls the edit back and its error is handed back.
pub fn edit_custom_channel(conn: &Connection, channel: CustomChannel) -> (r: Result<(), DbError>)
    ensures
        fails_in_sqlite(r),
{
    begin(conn)?;
    let outcome = edit_custom_channel_tx(conn, &channel);
    finish(conn, outcome)
}

/// The header statement of an edit: the upsert of a non-empty header set,
/// or else the deletion of the channel's headers.
pub fn edit_headers_statement(channel: &CustomChannel) -> (q: SqlQuery)
    ensures
        channel.headers is Some && !headers_are_empty(channel.headers->Some_0) ==> {
            let h = channel.headers->Some_0;
            &&& q.sql@ == UPSERT_HEADERS@
            &&& q.bounds() == seq![
                text_bound(h.referrer),
                text_bound(h.user_agent),
                text_bound(h.http_origin),
                opt_flag_bound(h.ignore_ssl),
                int_bound(channel.data.id),
            ]
        },
        !(channel.headers is Some && !headers_are_empty(channel.headers->Some_0)) ==> {
            &&& q.sql@ == DELETE_HEADERS@
            &&& q.bounds() == seq![int_bound(channel.data.id)]
        },
{
    match &channel.headers {
        Some(h) => if !channel_headers_empty(h) {
            return upsert_headers_statement(h, channel.data.id);
        },
        None => {},
    }
    delete_headers_statement(channel.data.id)
}

/// The two statements of an edit, in order: [`edit_channel_statement`],
/// then [`edit_headers_statement`].
fn edit_custom_channel_tx(conn: &Connection, channel: &CustomChannel) -> (r: Result<(), DbError>)
    ensures
        fails_in_sqlite(r),
{
    run(conn, &edit_channel_statement(&channel.data))?;
    run(conn, &edit_headers_statement(channel))?;
    Ok(())
}

/// Deletes a channel.
pub fn delete_custom_channel(conn: &Connection, id: i64) -> (r: Result<(), DbError>)
    ensures
        fails_in_sqlite(r),
{
    run(conn, &delete_channel_statement(id))?;
    Ok(())
}

/// Whether a source has a group of that name.
pub fn group_exists(conn: &Connection, name: &str, source_id: i64) -> (r: Result<bool, DbError>)
    ensures
        fails_in_sqlite(r),
{
    any_row(conn, &group_lookup_statement(name, source_id))
}

/// Whether a source has a channel of that name and url.
pub fn channel_exists(conn: &Connection, name: &str, url: &str, source_id: i64) -> (r: Result<bool, DbError>)
    ensures
        fails_in_sqlite(r),
{
    any_row(conn, &channel_lookup_statement(name, url, source_id))
}

/// Inserts a group of a custom source and returns its identity.
pub fn add_custom_group(conn: &Connection, group: Group) -> (r: Result<i64, DbError>)
    ensures
        fails_in_sqlite(r),
{
    run(conn, &insert_custom_group_statement(&group))?;
    Ok(last_insert_rowid(conn))
}

/// Groups of a source whose name contains the query.
pub fn group_auto_complete(conn: &Connection, query: Option<String>, source_id: i64) -> (r: Result<Vec<IdName>, DbError>)
    ensures
        fails_in_sqlite(r),
{
    let rows = fetch_query(conn, &group_auto_complete_statement(query, source_id), 2)?;
    Ok(decode_rows(
        &rows,
        row_to_id_name,
        Ghost(|row: Seq<SqlValue>| is_id_name_row(row)),
        Ghost(|row: Seq<SqlValue>, x: IdName| id_name_fields(row, x)),
    ))
}

/// Renames a group or changes its image.
pub fn edit_custom_group(conn: &Connection, group: Group) -> (r: Result<(), DbError>)
    ensures
        fails_in_sqlite(r),
{
    run(conn, &edit_group_statement(&group))?;
    Ok(())
}

/// The group in the first row of a lookup: none when there is no row.
pub fn first_group(rows: &Vec<Vec<SqlValue>>) -> (r: Result<Option<Group>, DbError>)
    ensures
        rows@.len() == 0 ==> r matches Ok(None),
        rows@.len() > 0 ==> (r is Ok <==> group_row_ok(rows@[0]@)),
        rows@.len() > 0 && r is Ok ==> r->Ok_0 is Some,
        r matches Ok(Some(g)) ==> group_fields(rows@[0]@, g),
        r is Err ==> r->Err_0 is Malformed,
{
    if rows.len() == 0 {
        return Ok(None);
    }
    match row_to_custom_group(&rows[0]) {
        Some(g) => Ok(Some(g)),
        None => Err(DbError::Malformed),
    }
}

fn get_group_by_id(conn: &Connection, id: i64) -> (r: Result<Option<Group>, DbError>)
    ensures
        r is Err ==> r->Err_0 is Sqlite || r->Err_0 is Malformed,
{
    let rows = fetch_query(conn, &group_by_id_statement(id), 4)?;
    first_group(&rows)
}

/// The headers of a channel and its group, for its edit form.
pub fn get_custom_channel_extra_data(conn: &Connection, id: i64, group_id: Option<i64>) -> (r: Result<CustomChannelExtraData, DbError>)
    ensures
        r is Err ==> r->Err_0 is Sqlite || r->Err_0 is Malformed,
        r is Ok && group_id is None ==> r->Ok_0.group is None,
{
    let headers = get_channel_headers_by_id(conn, id)?;
    let group = match group_id {
        None => None,
        Some(g) => get_group_by_id(conn, g)?,
    };
    Ok(CustomChannelExtraData { headers, group })
}

/// Deletes a group; its channels first move to `new_id` (or to no group)
/// when asked to.
pub fn delete_custom_group(conn: &Connection, id: i64, new_id: Option<i64>, do_channels_update: bool) -> (r: Result<(), DbError>)
    ensures
        fails_in_sqlite(r),
{
    if do_channels_update {
        run(conn, &move_group_channels_statement(id, new_id))?;
    }
    run(conn, &delete_group_statement(id))?;
    Ok(())
}

/// Whether any channel belongs to the group.
pub fn group_not_empty(conn: &Connection, id: i64) -> (r: Result<bool, DbError>)
    ensures
        fails_in_sqlite(r),
{
    any_row(conn, &group_channel_statement(id))
}

pub const CUSTOM_CHANNEL_SELECT: &'static str = "SELECT c.name, c.image, c.url, c.media_type, ch.referrer, ch.user_agent, ch.http_origin, ch.ignore_ssl FROM channels c LEFT JOIN channel_http_headers ch ON ch.channel_id = c.id WHERE source_id = ?";

/// The statement listing the channels of a source in one group, or in none.
pub fn custom_channels_query(group_id: Option<i64>, source_id: i64) -> (q: SqlQuery)
    ensures
        q.sql@ == CUSTOM_CHANNEL_SELECT@ + (if group_id is Some {
            " AND group_id = ?"@
        } else {
            " AND group_id IS NULL"@
        }),
        q.bounds() == seq![Bound::Int(source_id as int)] + (match group_id {
            Some(g) => seq![Bound::Int(g as int)],
            None => Seq::empty(),
        }),
{
    let mut q = SqlQuery::new(CUSTOM_CHANNEL_SELECT);
    q.bind(SqlValue::Integer(source_id));
    match group_id {
        Some(id) => {
            q.push_sql(" AND group_id = ?");
            q.bind(SqlValue::Integer(id));
            assert(q.bounds() =~= seq![Bound::Int(source_id as int), Bound::Int(id as int)]);
        },
        None => {
            q.push_sql(" AND group_id IS NULL");
            assert(q.bounds() =~= seq![Bound::Int(source_id as int)]);
        },
    }
    q
}

/// The channels of a source in one group (or in none), with their headers.
pub fn get_custom_channels(conn: &Connection, group_id: Option<i64>, source_id: i64) -> (r: Result<Vec<CustomChannel>, DbError>)
    ensures
        fails_in_sqlite(r),
{
    let q = custom_channels_query(group_id, source_id);
    let rows = fetch(conn, q.sql.as_str(), &q.params, 8)?;
    Ok(decode_rows(
        &rows,
        row_to_custom_channel,
        Ghost(|row: Seq<SqlValue>| custom_channel_row_ok(row)),
        Ghost(|row: Seq<SqlValue>, c: CustomChannel| custom_channel_fields(row, c)),
    ))
}

fn get_groups_by_source_id(conn: &Connection, id: i64) -> (r: Result<Vec<Group>, DbError>)
    ensures
        fails_in_sqlite(r),
{
    let rows = fetch_query(conn, &groups_of_source_statement(id), 4)?;
    Ok(decode_rows(
        &rows,
        row_to_custom_group,
        Ghost(|row: Seq<SqlValue>| group_row_ok(row)),
        Ghost(|row: Seq<SqlValue>, g: Group| group_fields(row, g)),
    ))
}

/// The export of the given groups of a source: one entry per group, in
/// order, with the group's name and image, no identity nor source, and the
/// group's channels.
pub fn export_groups(conn: &Connection, groups: &Vec<Group>, source_id: i64) -> (r: Result<Vec<ExportedGroup>, DbError>)
    ensures
        fails_in_sqlite(r),
        r is Ok ==> r->Ok_0@.len() == groups@.len(),
        r is Ok ==> forall|i: int| 0 <= i < groups@.len() ==> {
            let e = #[trigger] r->Ok_0@[i];
            &&& e.group.name@ == groups@[i].name@
            &&& opt_view(e.group.image) == opt_view(groups@[i].image)
            &&& e.group.id is None && e.group.source_id is None
        },
{
    let mut export: Vec<ExportedGroup> = Vec::new();
    let mut i: usize = 0;
    while i < groups.len()
        invariant
            i <= groups@.len(),
            export@.len() == i,
            forall|k: int| 0 <= k < i ==> {
                let e = #[trigger] export@[k];
                &&& e.group.name@ == groups@[k].name@
                &&& opt_view(e.group.image) == opt_view(groups@[k].image)
                &&& e.group.id is None && e.group.source_id is None
            },
        decreases groups.len() - i,
    {
        let group = &groups[i];
        let channels = get_custom_channels(conn, group.id, source_id)?;
        let image = match &group.image {
            Some(s) => Some(s.clone()),
            None => None,
        };
        export.push(ExportedGroup {
            group: Group { name: group.name.clone(), image, source_id: None, id: None },
            channels,
        });
        i = i + 1;
    }
    Ok(export)
}

/// The groups of a custom source with their channels, for export.
pub fn get_custom_groups(conn: &Connection, source_id: i64) -> (r: Result<Vec<ExportedGroup>, DbError>)
    ensures
        fails_in_sqlite(r),
        r is Ok ==> forall|i: int| 0 <= i < r->Ok_0@.len() ==> (#[trigger] r->Ok_0@[i]).group.id is None
            && r->Ok_0@[i].group.source_id is None,
{
    let groups = get_groups_by_source_id(conn, source_id)?;
    export_groups(conn, &groups, source_id)
}

/// The group name that a channel was read with.
pub open spec fn group_name(c: Channel) -> Seq<char> {
    c.group->Some_0@
}

pub open spec fn text_bound(o: Option<String>) -> Bound {
    match o {
        Some(s) => Bound::Text(s@),
        None => Bound::Null,
    }
}

pub open spec fn int_bound(o: Option<i64>) -> Bound {
    match o {
        Some(i) => Bound::Int(i as int),
        None => Bound::Null,
    }
}

pub open spec fn opt_flag_bound(o: Option<bool>) -> Bound {
    match o {
        Some(b) => flag_bound(b),
        None => Bound::Null,
    }
}

} // verus!
