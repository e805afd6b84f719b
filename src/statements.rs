//! Every statement that the repositories send, each built by a function
//! whose contract fixes its text and the values bound to it, in order.
use crate::db::SqlValue;
use crate::query::{bound_of, like_pattern, to_sql_like, Bound, SqlQuery};
use crate::sql::{
    flag_bound, flag_value, int_bound, int_value, opt_flag_bound, opt_flag_value, text_bound,
    text_value,
};
use crate::types::{Channel, ChannelHttpHeaders, Group, Source};
use vstd::prelude::*;
use vstd::string::StringExecFns;

verus! {

pub const SOURCE_BY_NAME: &'static str = "SELECT id FROM sources WHERE name = ?1";

pub const INSERT_SOURCE: &'static str = "INSERT INTO sources (name, source_type, url, username, password, use_tvg_id) VALUES (?1, ?2, ?3, ?4, ?5, ?6)";

pub const INSERT_CHANNEL: &'static str = "INSERT OR IGNORE INTO channels (name, group_id, image, url, source_id, media_type, series_id, favorite) VALUES (?1, ?2, ?3, ?4, ?5, ?6, ?7, ?8)";

pub const INSERT_HEADERS: &'static str = "INSERT OR IGNORE INTO channel_http_headers (channel_id, referrer, user_agent, http_origin, ignore_ssl) VALUES (?, ?, ?, ?, ?)";

pub const INSERT_GROUP: &'static str = "INSERT OR IGNORE INTO groups (name, image, source_id) VALUES (?1, ?2, ?3)";

pub const HEADERS_OF_CHANNEL: &'static str = "SELECT id, channel_id, referrer, user_agent, http_origin, ignore_ssl FROM channel_http_headers WHERE channel_id = ?";

pub const ALL_SETTINGS: &'static str = "SELECT key, value FROM settings";

pub const UPSERT_SETTING: &'static str = "INSERT INTO settings (key, value) VALUES (?1, ?2) ON CONFLICT(key) DO UPDATE SET value = ?2";

pub const EPISODE_OF_SERIES: &'static str = "SELECT 1 FROM channels WHERE series_id = ? LIMIT 1";

pub const DELETE_UNFAVORED_CHANNELS: &'static str = "DELETE FROM channels WHERE source_id = ? AND favorite = 0";

pub const DELETE_UNFAVORED_GROUPS: &'static str = "DELETE FROM groups WHERE source_id = ? AND id NOT IN (SELECT group_id FROM channels WHERE favorite = 1 AND group_id IS NOT NULL)";

pub const DELETE_SOURCE_CHANNELS: &'static str = "DELETE FROM channels WHERE source_id = ?";

pub const DELETE_SOURCE_GROUPS: &'static str = "DELETE FROM groups WHERE source_id = ?";

pub const DELETE_SOURCE: &'static str = "DELETE FROM sources WHERE id = ?";

pub const CHANNEL_COUNT: &'static str = "SELECT COUNT(*) FROM channels WHERE source_id = ?";

pub const SOURCE_NAMED: &'static str = "SELECT 1 FROM sources WHERE name = ?1";

pub const SET_FAVORITE: &'static str = "UPDATE channels SET favorite = ?1 WHERE id = ?2";

pub const ALL_SOURCES: &'static str = "SELECT id, name, username, password, url, source_type, enabled, use_tvg_id FROM sources";

pub const ENABLED_SOURCES: &'static str = "SELECT id, name, username, password, url, source_type, enabled, use_tvg_id FROM sources WHERE enabled = 1";

pub const SOURCE_OF_SERIES: &'static str = "SELECT id, name, username, password, url, source_type, enabled, use_tvg_id FROM sources WHERE id = (SELECT source_id FROM channels WHERE url = ?)";

pub const SET_ENABLED: &'static str = "UPDATE sources SET enabled = ? WHERE id = ?";

pub const EDIT_CHANNEL: &'static str = "UPDATE channels SET name = ?, image = ?, url = ?, media_type = ?, group_id = ? WHERE id = ?";

pub const UPSERT_HEADERS: &'static str = "INSERT INTO channel_http_headers (referrer, user_agent, http_origin, ignore_ssl, channel_id) VALUES (?1, ?2, ?3, ?4, ?5) ON CONFLICT(channel_id) DO UPDATE SET referrer = ?1, user_agent = ?2, http_origin = ?3, ignore_ssl = ?4";

pub const DELETE_HEADERS: &'static str = "DELETE FROM channel_http_headers WHERE channel_id = ?";

pub const DELETE_CHANNEL: &'static str = "DELETE FROM channels WHERE id = ?";

pub const GROUP_NAMED: &'static str = "SELECT 1 FROM groups WHERE name = ? AND source_id = ?";

pub const CHANNEL_NAMED: &'static str = "SELECT 1 FROM channels WHERE name = ? AND source_id = ? AND url = ?";

pub const INSERT_CUSTOM_GROUP: &'static str = "INSERT INTO groups (name, image, source_id) VALUES (?, ?, ?)";

pub const GROUPS_LIKE: &'static str = "SELECT id, name FROM groups WHERE name LIKE ? AND source_id = ?";

pub const EDIT_GROUP: &'static str = "UPDATE groups SET name = ?, image = ? WHERE id = ?";

pub const GROUP_BY_ID: &'static str = "SELECT id, name, image, source_id FROM groups WHERE id = ?";

pub const MOVE_GROUP_CHANNELS: &'static str = "UPDATE channels SET group_id = ? WHERE group_id = ?";

pub const DELETE_GROUP: &'static str = "DELETE FROM groups WHERE id = ?";

pub const CHANNEL_OF_GROUP: &'static str = "SELECT 1 FROM channels WHERE group_id = ?";

pub const GROUPS_OF_SOURCE: &'static str = "SELECT id, name, image, source_id FROM groups WHERE source_id = ?";

pub const STRUCTURE_CHECK: &'static str = "SELECT 1 FROM sqlite_master WHERE type = 'table' AND name = 'channels' LIMIT 1";

/// The identity of the source of a name.
pub fn lookup_source_statement(name: &String) -> (q: SqlQuery)
    ensures
        q.sql@ == SOURCE_BY_NAME@,
        q.bounds() == seq![Bound::Text(name@)],
{
    let q = SqlQuery::of(SOURCE_BY_NAME, vec![SqlValue::Text(name.clone())]);
    assert(q.bounds() =~= seq![Bound::Text(name@)]);
    q
}

/// Inserts a source.
pub fn insert_source_statement(s: &Source) -> (q: SqlQuery)
    ensures
        q.sql@ == INSERT_SOURCE@,
        q.bounds() == seq![Bound::Text(s.name@), Bound::Int(s.source_type as int), text_bound(s.url), text_bound(s.username), text_bound(s.password), opt_flag_bound(s.use_tvg_id)],
{
    let q = SqlQuery::of(INSERT_SOURCE, vec![SqlValue::Text(s.name.clone()), SqlValue::Integer(s.source_type as i64), text_value(&s.url), text_value(&s.username), text_value(&s.password), opt_flag_value(s.use_tvg_id)]);
    assert(q.bounds() =~= seq![Bound::Text(s.name@), Bound::Int(s.source_type as int), text_bound(s.url), text_bound(s.username), text_bound(s.password), opt_flag_bound(s.use_tvg_id)]);
    q
}

/// Inserts a channel, or nothing when its (name, url, source) is stored.
pub fn insert_channel_statement(c: &Channel) -> (q: SqlQuery)
    ensures
        q.sql@ == INSERT_CHANNEL@,
        q.bounds() == seq![Bound::Text(c.name@), int_bound(c.group_id), text_bound(c.image), text_bound(c.url), int_bound(c.source_id), Bound::Int(c.media_type as int), int_bound(c.series_id), flag_bound(c.favorite)],
{
    let q = SqlQuery::of(INSERT_CHANNEL, vec![SqlValue::Text(c.name.clone()), int_value(c.group_id), text_value(&c.image), text_value(&c.url), int_value(c.source_id), SqlValue::Integer(c.media_type as i64), int_value(c.series_id), flag_value(c.favorite)]);
    assert(q.bounds() =~= seq![Bound::Text(c.name@), int_bound(c.group_id), text_bound(c.image), text_bound(c.url), int_bound(c.source_id), Bound::Int(c.media_type as int), int_bound(c.series_id), flag_bound(c.favorite)]);
    q
}

/// Inserts the headers of a channel, or nothing when it has some.
pub fn insert_headers_statement(h: &ChannelHttpHeaders) -> (q: SqlQuery)
    ensures
        q.sql@ == INSERT_HEADERS@,
        q.bounds() == seq![int_bound(h.channel_id), text_bound(h.referrer), text_bound(h.user_agent), text_bound(h.http_origin), opt_flag_bound(h.ignore_ssl)],
{
    let q = SqlQuery::of(INSERT_HEADERS, vec![int_value(h.channel_id), text_value(&h.referrer), text_value(&h.user_agent), text_value(&h.http_origin), opt_flag_value(h.ignore_ssl)]);
    assert(q.bounds() =~= seq![int_bound(h.channel_id), text_bound(h.referrer), text_bound(h.user_agent), text_bound(h.http_origin), opt_flag_bound(h.ignore_ssl)]);
    q
}

/// Inserts a group, or nothing when its (name, source) is stored.
pub fn insert_group_statement(name: &str, image: &Option<String>, source_id: i64) -> (q: SqlQuery)
    ensures
        q.sql@ == INSERT_GROUP@,
        q.bounds() == seq![Bound::Text(name@), text_bound(*image), Bound::Int(source_id as int)],
{
    let q = SqlQuery::of(INSERT_GROUP, vec![SqlValue::Text(String::from_str(name)), text_value(&*image), SqlValue::Integer(source_id)]);
    assert(q.bounds() =~= seq![Bound::Text(name@), text_bound(*image), Bound::Int(source_id as int)]);
    q
}

/// The headers of a channel.
pub fn headers_of_channel_statement(channel_id: i64) -> (q: SqlQuery)
    ensures
        q.sql@ == HEADERS_OF_CHANNEL@,
        q.bounds() == seq![Bound::Int(channel_id as int)],
{
    let q = SqlQuery::of(HEADERS_OF_CHANNEL, vec![SqlValue::Integer(channel_id)]);
    assert(q.bounds() =~= seq![Bound::Int(channel_id as int)]);
    q
}

/// All settings.
pub fn settings_statement() -> (q: SqlQuery)
    ensures
        q.sql@ == ALL_SETTINGS@,
        q.bounds() == Seq::<Bound>::empty(),
{
    let q = SqlQuery::of(ALL_SETTINGS, Vec::new());
    assert(q.bounds() =~= Seq::<Bound>::empty());
    q
}

/// Sets one key, inserting it or replacing its value.
pub fn upsert_setting_statement(key: &String, value: &String) -> (q: SqlQuery)
    ensures
        q.sql@ == UPSERT_SETTING@,
        q.bounds() == seq![Bound::Text(key@), Bound::Text(value@)],
{
    let q = SqlQuery::of(UPSERT_SETTING, vec![SqlValue::Text(key.clone()), SqlValue::Text(value.clone())]);
    assert(q.bounds() =~= seq![Bound::Text(key@), Bound::Text(value@)]);
    q
}

/// A row when the series has an episode.
pub fn series_episode_statement(series_id: i64) -> (q: SqlQuery)
    ensures
        q.sql@ == EPISODE_OF_SERIES@,
        q.bounds() == seq![Bound::Int(series_id as int)],
{
    let q = SqlQuery::of(EPISODE_OF_SERIES, vec![SqlValue::Integer(series_id)]);
    assert(q.bounds() =~= seq![Bound::Int(series_id as int)]);
    q
}

/// Deletes the channels of a source that are not favorites.
pub fn refresh_channels_statement(source_id: i64) -> (q: SqlQuery)
    ensures
        q.sql@ == DELETE_UNFAVORED_CHANNELS@,
        q.bounds() == seq![Bound::Int(source_id as int)],
{
    let q = SqlQuery::of(DELETE_UNFAVORED_CHANNELS, vec![SqlValue::Integer(source_id)]);
    assert(q.bounds() =~= seq![Bound::Int(source_id as int)]);
    q
}

/// Deletes the groups of a source that no favorite channel points to.
pub fn refresh_groups_statement(source_id: i64) -> (q: SqlQuery)
    ensures
        q.sql@ == DELETE_UNFAVORED_GROUPS@,
        q.bounds() == seq![Bound::Int(source_id as int)],
{
    let q = SqlQuery::of(DELETE_UNFAVORED_GROUPS, vec![SqlValue::Integer(source_id)]);
    assert(q.bounds() =~= seq![Bound::Int(source_id as int)]);
    q
}

/// Deletes every channel of a source.
pub fn delete_source_channels_statement(source_id: i64) -> (q: SqlQuery)
    ensures
        q.sql@ == DELETE_SOURCE_CHANNELS@,
        q.bounds() == seq![Bound::Int(source_id as int)],
{
    let q = SqlQuery::of(DELETE_SOURCE_CHANNELS, vec![SqlValue::Integer(source_id)]);
    assert(q.bounds() =~= seq![Bound::Int(source_id as int)]);
    q
}

/// Deletes every group of a source.
pub fn delete_source_groups_statement(source_id: i64) -> (q: SqlQuery)
    ensures
        q.sql@ == DELETE_SOURCE_GROUPS@,
        q.bounds() == seq![Bound::Int(source_id as int)],
{
    let q = SqlQuery::of(DELETE_SOURCE_GROUPS, vec![SqlValue::Integer(source_id)]);
    assert(q.bounds() =~= seq![Bound::Int(source_id as int)]);
    q
}

/// Deletes a source row.
pub fn delete_source_row_statement(id: i64) -> (q: SqlQuery)
    ensures
        q.sql@ == DELETE_SOURCE@,
        q.bounds() == seq![Bound::Int(id as int)],
{
    let q = SqlQuery::of(DELETE_SOURCE, vec![SqlValue::Integer(id)]);
    assert(q.bounds() =~= seq![Bound::Int(id as int)]);
    q
}

/// Counts the channels of a source.
pub fn channel_count_statement(source_id: i64) -> (q: SqlQuery)
    ensures
        q.sql@ == CHANNEL_COUNT@,
        q.bounds() == seq![Bound::Int(source_id as int)],
{
    let q = SqlQuery::of(CHANNEL_COUNT, vec![SqlValue::Integer(source_id)]);
    assert(q.bounds() =~= seq![Bound::Int(source_id as int)]);
    q
}

/// A row when a source has the name.
pub fn source_name_statement(name: &str) -> (q: SqlQuery)
    ensures
        q.sql@ == SOURCE_NAMED@,
        q.bounds() == seq![Bound::Text(name@)],
{
    let q = SqlQuery::of(SOURCE_NAMED, vec![SqlValue::Text(String::from_str(name))]);
    assert(q.bounds() =~= seq![Bound::Text(name@)]);
    q
}

/// Sets or clears the favorite flag of a channel.
pub fn favorite_statement(channel_id: i64, favorite: bool) -> (q: SqlQuery)
    ensures
        q.sql@ == SET_FAVORITE@,
        q.bounds() == seq![flag_bound(favorite), Bound::Int(channel_id as int)],
{
    let q = SqlQuery::of(SET_FAVORITE, vec![flag_value(favorite), SqlValue::Integer(channel_id)]);
    assert(q.bounds() =~= seq![flag_bound(favorite), Bound::Int(channel_id as int)]);
    q
}

/// All sources.
pub fn sources_statement() -> (q: SqlQuery)
    ensures
        q.sql@ == ALL_SOURCES@,
        q.bounds() == Seq::<Bound>::empty(),
{
    let q = SqlQuery::of(ALL_SOURCES, Vec::new());
    assert(q.bounds() =~= Seq::<Bound>::empty());
    q
}

/// The enabled sources.
pub fn enabled_sources_statement() -> (q: SqlQuery)
    ensures
        q.sql@ == ENABLED_SOURCES@,
        q.bounds() == Seq::<Bound>::empty(),
{
    let q = SqlQuery::of(ENABLED_SOURCES, Vec::new());
    assert(q.bounds() =~= Seq::<Bound>::empty());
    q
}

/// The source of the channel whose url holds a series identity.
pub fn source_of_series_statement(series_id: i64) -> (q: SqlQuery)
    ensures
        q.sql@ == SOURCE_OF_SERIES@,
        q.bounds() == seq![Bound::Int(series_id as int)],
{
    let q = SqlQuery::of(SOURCE_OF_SERIES, vec![SqlValue::Integer(series_id)]);
    assert(q.bounds() =~= seq![Bound::Int(series_id as int)]);
    q
}

/// Enables or disables a source.
pub fn set_enabled_statement(value: bool, source_id: i64) -> (q: SqlQuery)
    ensures
        q.sql@ == SET_ENABLED@,
        q.bounds() == seq![flag_bound(value), Bound::Int(source_id as int)],
{
    let q = SqlQuery::of(SET_ENABLED, vec![flag_value(value), SqlValue::Integer(source_id)]);
    assert(q.bounds() =~= seq![flag_bound(value), Bound::Int(source_id as int)]);
    q
}

/// Updates the editable fields of a channel.
pub fn edit_channel_statement(c: &Channel) -> (q: SqlQuery)
    ensures
        q.sql@ == EDIT_CHANNEL@,
        q.bounds() == seq![Bound::Text(c.name@), text_bound(c.image), text_bound(c.url), Bound::Int(c.media_type as int), int_bound(c.group_id), int_bound(c.id)],
{
    let q = SqlQuery::of(EDIT_CHANNEL, vec![SqlValue::Text(c.name.clone()), text_value(&c.image), text_value(&c.url), SqlValue::Integer(c.media_type as i64), int_value(c.group_id), int_value(c.id)]);
    assert(q.bounds() =~= seq![Bound::Text(c.name@), text_bound(c.image), text_bound(c.url), Bound::Int(c.media_type as int), int_bound(c.group_id), int_bound(c.id)]);
    q
}

/// Inserts the headers of a channel, or replaces those it has.
pub fn upsert_headers_statement(h: &ChannelHttpHeaders, channel_id: Option<i64>) -> (q: SqlQuery)
    ensures
        q.sql@ == UPSERT_HEADERS@,
        q.bounds() == seq![text_bound(h.referrer), text_bound(h.user_agent), text_bound(h.http_origin), opt_flag_bound(h.ignore_ssl), int_bound(channel_id)],
{
    let q = SqlQuery::of(UPSERT_HEADERS, vec![text_value(&h.referrer), text_value(&h.user_agent), text_value(&h.http_origin), opt_flag_value(h.ignore_ssl), int_value(channel_id)]);
    assert(q.bounds() =~= seq![text_bound(h.referrer), text_bound(h.user_agent), text_bound(h.http_origin), opt_flag_bound(h.ignore_ssl), int_bound(channel_id)]);
    q
}

/// Deletes the headers of a channel.
pub fn delete_headers_statement(channel_id: Option<i64>) -> (q: SqlQuery)
    ensures
        q.sql@ == DELETE_HEADERS@,
        q.bounds() == seq![int_bound(channel_id)],
{
    let q = SqlQuery::of(DELETE_HEADERS, vec![int_value(channel_id)]);
    assert(q.bounds() =~= seq![int_bound(channel_id)]);
    q
}

/// Deletes a channel.
pub fn delete_channel_statement(id: i64) -> (q: SqlQuery)
    ensures
        q.sql@ == DELETE_CHANNEL@,
        q.bounds() == seq![Bound::Int(id as int)],
{
    let q = SqlQuery::of(DELETE_CHANNEL, vec![SqlValue::Integer(id)]);
    assert(q.bounds() =~= seq![Bound::Int(id as int)]);
    q
}

/// A row when the source has a group of the name.
pub fn group_lookup_statement(name: &str, source_id: i64) -> (q: SqlQuery)
    ensures
        q.sql@ == GROUP_NAMED@,
        q.bounds() == seq![Bound::Text(name@), Bound::Int(source_id as int)],
{
    let q = SqlQuery::of(GROUP_NAMED, vec![SqlValue::Text(String::from_str(name)), SqlValue::Integer(source_id)]);
    assert(q.bounds() =~= seq![Bound::Text(name@), Bound::Int(source_id as int)]);
    q
}

/// A row when the source has a channel of the name and url.
pub fn channel_lookup_statement(name: &str, url: &str, source_id: i64) -> (q: SqlQuery)
    ensures
        q.sql@ == CHANNEL_NAMED@,
        q.bounds() == seq![Bound::Text(name@), Bound::Int(source_id as int), Bound::Text(url@)],
{
    let q = SqlQuery::of(CHANNEL_NAMED, vec![SqlValue::Text(String::from_str(name)), SqlValue::Integer(source_id), SqlValue::Text(String::from_str(url))]);
    assert(q.bounds() =~= seq![Bound::Text(name@), Bound::Int(source_id as int), Bound::Text(url@)]);
    q
}

/// Inserts a group of a custom source.
pub fn insert_custom_group_statement(g: &Group) -> (q: SqlQuery)
    ensures
        q.sql@ == INSERT_CUSTOM_GROUP@,
        q.bounds() == seq![Bound::Text(g.name@), text_bound(g.image), int_bound(g.source_id)],
{
    let q = SqlQuery::of(INSERT_CUSTOM_GROUP, vec![SqlValue::Text(g.name.clone()), text_value(&g.image), int_value(g.source_id)]);
    assert(q.bounds() =~= seq![Bound::Text(g.name@), text_bound(g.image), int_bound(g.source_id)]);
    q
}

/// The groups of a source whose name contains the query.
pub fn group_auto_complete_statement(query: Option<String>, source_id: i64) -> (q: SqlQuery)
    ensures
        q.sql@ == GROUPS_LIKE@,
        q.bounds() == seq![Bound::Text(like_pattern(query)), Bound::Int(source_id as int)],
{
    let q = SqlQuery::of(GROUPS_LIKE, vec![SqlValue::Text(to_sql_like(query)), SqlValue::Integer(source_id)]);
    assert(q.bounds() =~= seq![Bound::Text(like_pattern(query)), Bound::Int(source_id as int)]);
    q
}

/// Renames a group or changes its image.
pub fn edit_group_statement(g: &Group) -> (q: SqlQuery)
    ensures
        q.sql@ == EDIT_GROUP@,
        q.bounds() == seq![Bound::Text(g.name@), text_bound(g.image), int_bound(g.id)],
{
    let q = SqlQuery::of(EDIT_GROUP, vec![SqlValue::Text(g.name.clone()), text_value(&g.image), int_value(g.id)]);
    assert(q.bounds() =~= seq![Bound::Text(g.name@), text_bound(g.image), int_bound(g.id)]);
    q
}

/// A group by identity.
pub fn group_by_id_statement(id: i64) -> (q: SqlQuery)
    ensures
        q.sql@ == GROUP_BY_ID@,
        q.bounds() == seq![Bound::Int(id as int)],
{
    let q = SqlQuery::of(GROUP_BY_ID, vec![SqlValue::Integer(id)]);
    assert(q.bounds() =~= seq![Bound::Int(id as int)]);
    q
}

/// Moves the channels of a group to another group, or to none.
pub fn move_group_channels_statement(id: i64, new_id: Option<i64>) -> (q: SqlQuery)
    ensures
        q.sql@ == MOVE_GROUP_CHANNELS@,
        q.bounds() == seq![int_bound(new_id), Bound::Int(id as int)],
{
    let q = SqlQuery::of(MOVE_GROUP_CHANNELS, vec![int_value(new_id), SqlValue::Integer(id)]);
    assert(q.bounds() =~= seq![int_bound(new_id), Bound::Int(id as int)]);
    q
}

/// Deletes a group.
pub fn delete_group_statement(id: i64) -> (q: SqlQuery)
    ensures
        q.sql@ == DELETE_GROUP@,
        q.bounds() == seq![Bound::Int(id as int)],
{
    let q = SqlQuery::of(DELETE_GROUP, vec![SqlValue::Integer(id)]);
    assert(q.bounds() =~= seq![Bound::Int(id as int)]);
    q
}

/// A row when a channel belongs to the group.
pub fn group_channel_statement(id: i64) -> (q: SqlQuery)
    ensures
        q.sql@ == CHANNEL_OF_GROUP@,
        q.bounds() == seq![Bound::Int(id as int)],
{
    let q = SqlQuery::of(CHANNEL_OF_GROUP, vec![SqlValue::Integer(id)]);
    assert(q.bounds() =~= seq![Bound::Int(id as int)]);
    q
}

/// The groups of a source.
pub fn groups_of_source_statement(source_id: i64) -> (q: SqlQuery)
    ensures
        q.sql@ == GROUPS_OF_SOURCE@,
        q.bounds() == seq![Bound::Int(source_id as int)],
{
    let q = SqlQuery::of(GROUPS_OF_SOURCE, vec![SqlValue::Integer(source_id)]);
    assert(q.bounds() =~= seq![Bound::Int(source_id as int)]);
    q
}

/// A row when the baseline tables exist.
pub fn structure_statement() -> (q: SqlQuery)
    ensures
        q.sql@ == STRUCTURE_CHECK@,
        q.bounds() == Seq::<Bound>::empty(),
{
    let q = SqlQuery::of(STRUCTURE_CHECK, Vec::new());
    assert(q.bounds() =~= Seq::<Bound>::empty());
    q
}

} // verus!
