//! Decoding of result rows into entities. A column is read as SQLite would
//! hand it to a typed reader: an integer column as an integer, a text
//! column as text, and NULL only where the field is optional. A row with a
//! column of another type does not decode.
use crate::db::SqlValue;
use crate::media_type;
use crate::types::{Channel, ChannelHttpHeaders, CustomChannel, Group, IdName, Source};
use vstd::string::StringExecFns;
use vstd::prelude::*;

verus! {

pub open spec fn int_of(v: SqlValue) -> Option<i64> {
    match v {
        SqlValue::Integer(i) => Some(i),
        _ => None,
    }
}

pub open spec fn text_of(v: SqlValue) -> Option<Seq<char>> {
    match v {
        SqlValue::Text(s) => Some(s@),
        _ => None,
    }
}

pub open spec fn opt_view(o: Option<String>) -> Option<Seq<char>> {
    match o {
        Some(s) => Some(s@),
        None => None,
    }
}

pub open spec fn is_int_or_null(v: SqlValue) -> bool {
    v is Null || v is Integer
}

pub open spec fn is_text_or_null(v: SqlValue) -> bool {
    v is Null || v is Text
}

/// An integer column that fits a media or source kind.
pub open spec fn is_kind(v: SqlValue) -> bool {
    match v {
        SqlValue::Integer(i) => 0 <= i <= 255,
        _ => false,
    }
}

pub open spec fn kind_of(v: SqlValue) -> u8 {
    match v {
        SqlValue::Integer(i) => i as u8,
        _ => 0,
    }
}

/// An integer column read as a flag: any value but zero is true.
pub open spec fn flag_of(v: SqlValue) -> Option<bool> {
    match v {
        SqlValue::Integer(i) => Some(i != 0),
        _ => None,
    }
}

fn read_int(v: &SqlValue) -> (r: Option<i64>)
    ensures
        r == int_of(*v),
{
    match v {
        SqlValue::Integer(i) => Some(*i),
        _ => None,
    }
}

fn read_opt_int(v: &SqlValue) -> (r: Option<Option<i64>>)
    ensures
        r is Some <==> is_int_or_null(*v),
        r matches Some(x) ==> x == int_of(*v),
{
    match v {
        SqlValue::Null => Some(None),
        SqlValue::Integer(i) => Some(Some(*i)),
        _ => None,
    }
}

fn read_text(v: &SqlValue) -> (r: Option<String>)
    ensures
        opt_view(r) == text_of(*v),
{
    match v {
        SqlValue::Text(s) => Some(s.clone()),
        _ => None,
    }
}

fn read_opt_text(v: &SqlValue) -> (r: Option<Option<String>>)
    ensures
        r is Some <==> is_text_or_null(*v),
        r matches Some(x) ==> opt_view(x) == text_of(*v),
{
    match v {
        SqlValue::Null => Some(None),
        SqlValue::Text(s) => Some(Some(s.clone())),
        _ => None,
    }
}

fn read_flag(v: &SqlValue) -> (r: Option<bool>)
    ensures
        r == flag_of(*v),
{
    match v {
        SqlValue::Integer(i) => Some(*i != 0),
        _ => None,
    }
}

fn read_opt_flag(v: &SqlValue) -> (r: Option<Option<bool>>)
    ensures
        r is Some <==> is_int_or_null(*v),
        r matches Some(x) ==> x == flag_of(*v),
{
    match v {
        SqlValue::Null => Some(None),
        SqlValue::Integer(i) => Some(Some(*i != 0)),
        _ => None,
    }
}

fn read_kind(v: &SqlValue) -> (r: Option<u8>)
    ensures
        r is Some <==> is_kind(*v),
        r matches Some(k) ==> k == kind_of(*v),
{
    match v {
        SqlValue::Integer(i) => if 0 <= *i && *i <= 255 {
            Some(*i as u8)
        } else {
            None
        },
        _ => None,
    }
}

/// Columns: id, name, group_id, image, media_type, source_id, url, favorite.
pub open spec fn channel_row_ok(row: Seq<SqlValue>) -> bool {
    row.len() == 8 && is_int_or_null(row[0]) && row[1] is Text && is_int_or_null(row[2])
        && is_text_or_null(row[3]) && is_kind(row[4]) && is_int_or_null(row[5]) && row[6] is Text
        && flag_of(row[7]) is Some
}

/// What a Channel decoded from its row holds.
pub open spec fn channel_fields(row: Seq<SqlValue>, c: Channel) -> bool {
    &&& c.id == int_of(row[0])
    &&& Some(c.name@) == text_of(row[1])
    &&& c.group_id == int_of(row[2])
    &&& opt_view(c.image) == text_of(row[3])
    &&& c.media_type == kind_of(row[4])
    &&& c.source_id == int_of(row[5])
    &&& opt_view(c.url) == text_of(row[6])
    &&& c.url is Some
    &&& Some(c.favorite) == flag_of(row[7])
    &&& c.series_id is None
    &&& c.group is None
}

/// A stored channel, decoded from its row; the url is always present.
pub fn row_to_channel(row: &Vec<SqlValue>) -> (r: Option<Channel>)
    ensures
        r is Some <==> channel_row_ok(row@),
        r matches Some(c) ==> channel_fields(row@, c),
{
    if row.len() != 8 {
        return None;
    }
    let id = read_opt_int(&row[0]);
    let name = read_text(&row[1]);
    let group_id = read_opt_int(&row[2]);
    let image = read_opt_text(&row[3]);
    let kind = read_kind(&row[4]);
    let source_id = read_opt_int(&row[5]);
    let url = read_text(&row[6]);
    let favorite = read_flag(&row[7]);
    match (id, name, group_id, image, kind, source_id, url, favorite) {
        (Some(id), Some(name), Some(group_id), Some(image), Some(kind), Some(source_id), Some(url), Some(favorite)) => Some(Channel {
            id,
            name,
            group: None,
            image,
            url: Some(url),
            media_type: kind,
            source_id,
            series_id: None,
            group_id,
            favorite,
        }),
        _ => None,
    }
}

/// Columns: id, name, image, source_id.
pub open spec fn group_row_ok(row: Seq<SqlValue>) -> bool {
    row.len() == 4 && is_int_or_null(row[0]) && row[1] is Text && is_text_or_null(row[2])
        && is_int_or_null(row[3])
}

/// What a Channel decoded from its row holds.
pub open spec fn category_fields(row: Seq<SqlValue>, c: Channel) -> bool {
    &&& c.id == int_of(row[0])
    &&& Some(c.name@) == text_of(row[1])
    &&& opt_view(c.image) == text_of(row[2])
    &&& c.source_id == int_of(row[3])
    &&& c.media_type == media_type::GROUP
    &&& c.url is None
    &&& c.group is None
    &&& c.group_id is None
    &&& c.series_id is None
    &&& !c.favorite
}

/// A group, decoded as a category row: media kind "group", and no url.
pub fn row_to_group(row: &Vec<SqlValue>) -> (r: Option<Channel>)
    ensures
        r is Some <==> group_row_ok(row@),
        r matches Some(c) ==> category_fields(row@, c),
{
    if row.len() != 4 {
        return None;
    }
    match (read_opt_int(&row[0]), read_text(&row[1]), read_opt_text(&row[2]), read_opt_int(&row[3])) {
        (Some(id), Some(name), Some(image), Some(source_id)) => Some(Channel {
            id,
            name,
            group: None,
            image,
            media_type: media_type::GROUP,
            url: None,
            series_id: None,
            group_id: None,
            favorite: false,
            source_id,
        }),
        _ => None,
    }
}

/// What a Group decoded from its row holds.
pub open spec fn group_fields(row: Seq<SqlValue>, g: Group) -> bool {
    &&& g.id == int_of(row[0])
    &&& Some(g.name@) == text_of(row[1])
    &&& opt_view(g.image) == text_of(row[2])
    &&& g.source_id == int_of(row[3])
}

/// A group as a group, from the same columns.
pub fn row_to_custom_group(row: &Vec<SqlValue>) -> (r: Option<Group>)
    ensures
        r is Some <==> group_row_ok(row@),
        r matches Some(g) ==> group_fields(row@, g),
{
    if row.len() != 4 {
        return None;
    }
    match (read_opt_int(&row[0]), read_text(&row[1]), read_opt_text(&row[2]), read_opt_int(&row[3])) {
        (Some(id), Some(name), Some(image), Some(source_id)) => Some(Group { id, name, image, source_id }),
        _ => None,
    }
}

/// What a Source decoded from its row holds.
pub open spec fn source_fields(row: Seq<SqlValue>, s: Source) -> bool {
    &&& s.id == int_of(row[0])
    &&& Some(s.name@) == text_of(row[1])
    &&& opt_view(s.username) == text_of(row[2])
    &&& opt_view(s.password) == text_of(row[3])
    &&& opt_view(s.url) == text_of(row[4])
    &&& s.source_type == kind_of(row[5])
    &&& Some(s.enabled) == flag_of(row[6])
    &&& s.use_tvg_id == flag_of(row[7])
    &&& s.url_origin is None
}

/// Columns: id, name, username, password, url, source_type, enabled, use_tvg_id.
pub open spec fn source_row_ok(row: Seq<SqlValue>) -> bool {
    row.len() == 8 && is_int_or_null(row[0]) && row[1] is Text && is_text_or_null(row[2])
        && is_text_or_null(row[3]) && is_text_or_null(row[4]) && is_kind(row[5]) && flag_of(
        row[6],
    ) is Some && is_int_or_null(row[7])
}

pub fn row_to_source(row: &Vec<SqlValue>) -> (r: Option<Source>)
    ensures
        r is Some <==> source_row_ok(row@),
        r matches Some(s) ==> source_fields(row@, s),
{
    if row.len() != 8 {
        return None;
    }
    let id = read_opt_int(&row[0]);
    let name = read_text(&row[1]);
    let username = read_opt_text(&row[2]);
    let password = read_opt_text(&row[3]);
    let url = read_opt_text(&row[4]);
    let kind = read_kind(&row[5]);
    let enabled = read_flag(&row[6]);
    let use_tvg_id = read_opt_flag(&row[7]);
    match (id, name, username, password, url, kind, enabled, use_tvg_id) {
        (Some(id), Some(name), Some(username), Some(password), Some(url), Some(kind), Some(enabled), Some(use_tvg_id)) => Some(Source {
            id,
            name,
            url,
            url_origin: None,
            username,
            password,
            source_type: kind,
            enabled,
            use_tvg_id,
        }),
        _ => None,
    }
}

/// What a ChannelHttpHeaders decoded from its row holds.
pub open spec fn headers_fields(row: Seq<SqlValue>, h: ChannelHttpHeaders) -> bool {
    &&& h.id == int_of(row[0])
    &&& h.channel_id == int_of(row[1])
    &&& opt_view(h.referrer) == text_of(row[2])
    &&& opt_view(h.user_agent) == text_of(row[3])
    &&& opt_view(h.http_origin) == text_of(row[4])
    &&& h.ignore_ssl == flag_of(row[5])
}

/// Columns: id, channel_id, referrer, user_agent, http_origin, ignore_ssl.
pub open spec fn headers_row_ok(row: Seq<SqlValue>) -> bool {
    row.len() == 6 && is_int_or_null(row[0]) && is_int_or_null(row[1]) && is_text_or_null(row[2])
        && is_text_or_null(row[3]) && is_text_or_null(row[4]) && is_int_or_null(row[5])
}

pub fn row_to_channel_headers(row: &Vec<SqlValue>) -> (r: Option<ChannelHttpHeaders>)
    ensures
        r is Some <==> headers_row_ok(row@),
        r matches Some(h) ==> headers_fields(row@, h),
{
    if row.len() != 6 {
        return None;
    }
    match (
        read_opt_int(&row[0]),
        read_opt_int(&row[1]),
        read_opt_text(&row[2]),
        read_opt_text(&row[3]),
        read_opt_text(&row[4]),
        read_opt_flag(&row[5]),
    ) {
        (Some(id), Some(channel_id), Some(referrer), Some(user_agent), Some(http_origin), Some(ignore_ssl)) => Some(ChannelHttpHeaders {
            id,
            channel_id,
            referrer,
            user_agent,
            http_origin,
            ignore_ssl,
        }),
        _ => None,
    }
}

pub open spec fn is_id_name_row(row: Seq<SqlValue>) -> bool {
    row.len() == 2 && row[0] is Integer && row[1] is Text
}

pub open spec fn id_name_fields(row: Seq<SqlValue>, x: IdName) -> bool {
    Some(x.id) == int_of(row[0]) && Some(x.name@) == text_of(row[1])
}

/// Columns: id, name.
pub fn row_to_id_name(row: &Vec<SqlValue>) -> (r: Option<IdName>)
    ensures
        r is Some <==> is_id_name_row(row@),
        r matches Some(x) ==> id_name_fields(row@, x),
{
    if row.len() != 2 {
        return None;
    }
    match (read_int(&row[0]), read_text(&row[1])) {
        (Some(id), Some(name)) => Some(IdName { id, name }),
        _ => None,
    }
}

/// Columns: name, image, url, media_type, referrer, user_agent, http_origin, ignore_ssl.
pub open spec fn custom_channel_row_ok(row: Seq<SqlValue>) -> bool {
    row.len() == 8 && row[0] is Text && is_text_or_null(row[1]) && is_text_or_null(row[2])
        && is_kind(row[3]) && is_text_or_null(row[4]) && is_text_or_null(row[5])
        && is_text_or_null(row[6]) && is_int_or_null(row[7])
}

/// What a CustomChannel decoded from its row holds.
pub open spec fn custom_channel_fields(row: Seq<SqlValue>, c: CustomChannel) -> bool {
    &&& Some(c.data.name@) == text_of(row[0])
    &&& opt_view(c.data.image) == text_of(row[1])
    &&& opt_view(c.data.url) == text_of(row[2])
    &&& c.data.media_type == kind_of(row[3])
    &&& c.data.id is None && c.data.source_id is None && c.data.group_id is None
    &&& !c.data.favorite
    &&& c.headers matches Some(h) && {
        &&& opt_view(h.referrer) == text_of(row[4])
        &&& opt_view(h.user_agent) == text_of(row[5])
        &&& opt_view(h.http_origin) == text_of(row[6])
        &&& h.ignore_ssl == flag_of(row[7])
        &&& h.id is None && h.channel_id is None
    }
}

/// A custom channel for export: no identities, and its headers always present.
pub fn row_to_custom_channel(row: &Vec<SqlValue>) -> (r: Option<CustomChannel>)
    ensures
        r is Some <==> custom_channel_row_ok(row@),
        r matches Some(c) ==> custom_channel_fields(row@, c),
{
    if row.len() != 8 {
        return None;
    }
    let name = read_text(&row[0]);
    let image = read_opt_text(&row[1]);
    let url = read_opt_text(&row[2]);
    let kind = read_kind(&row[3]);
    let referrer = read_opt_text(&row[4]);
    let user_agent = read_opt_text(&row[5]);
    let http_origin = read_opt_text(&row[6]);
    let ignore_ssl = read_opt_flag(&row[7]);
    match (name, image, url, kind, referrer, user_agent, http_origin, ignore_ssl) {
        (Some(name), Some(image), Some(url), Some(kind), Some(referrer), Some(user_agent), Some(http_origin), Some(ignore_ssl)) => Some(CustomChannel {
            data: Channel {
                id: None,
                name,
                group: None,
                image,
                url,
                media_type: kind,
                source_id: None,
                series_id: None,
                group_id: None,
                favorite: false,
            },
            headers: Some(ChannelHttpHeaders {
                id: None,
                channel_id: None,
                referrer,
                user_agent,
                http_origin,
                ignore_ssl,
            }),
        }),
        _ => None,
    }
}

/// A settings row: a key and a value, both text.
pub open spec fn is_setting_row(row: Seq<SqlValue>) -> bool {
    row.len() == 2 && row[0] is Text && row[1] is Text
}

pub open spec fn setting_fields(row: Seq<SqlValue>, kv: (String, String)) -> bool {
    Some(kv.0@) == text_of(row[0]) && Some(kv.1@) == text_of(row[1])
}

/// Columns: key, value.
pub fn row_to_setting(row: &Vec<SqlValue>) -> (r: Option<(String, String)>)
    ensures
        r is Some <==> is_setting_row(row@),
        r matches Some(kv) ==> setting_fields(row@, kv),
{
    if row.len() != 2 {
        return None;
    }
    match (read_text(&row[0]), read_text(&row[1])) {
        (Some(k), Some(v)) => Some((k, v)),
        _ => None,
    }
}

/// The columns of each row.
pub open spec fn row_views(rows: Seq<Vec<SqlValue>>) -> Seq<Seq<SqlValue>> {
    rows.map_values(|row: Vec<SqlValue>| row@)
}

/// Filtering a prefix one element longer adds that element when it passes.
pub proof fn lemma_filter_step<A>(s: Seq<A>, pred: spec_fn(A) -> bool, i: int)
    requires
        0 <= i < s.len(),
    ensures
        s.subrange(0, i + 1).filter(pred) == (if pred(s[i]) {
            s.subrange(0, i).filter(pred).push(s[i])
        } else {
            s.subrange(0, i).filter(pred)
        }),
{
    reveal(Seq::filter);
    assert(s.subrange(0, i + 1).drop_last() =~= s.subrange(0, i));
}

/// Decodes the rows that decode, in order, skipping the others: the result
/// holds one value for each row that `ok` admits, with that row's fields.
pub fn decode_rows<T, F: Fn(&Vec<SqlValue>) -> Option<T>>(
    rows: &Vec<Vec<SqlValue>>,
    decode: F,
    Ghost(ok): Ghost<spec_fn(Seq<SqlValue>) -> bool>,
    Ghost(fields): Ghost<spec_fn(Seq<SqlValue>, T) -> bool>,
) -> (r: Vec<T>)
    requires
        forall|row: &Vec<SqlValue>| #[trigger] decode.requires((row,)),
        forall|row: &Vec<SqlValue>, o: Option<T>| #[trigger]
            decode.ensures((row,), o) ==> (o is Some <==> ok(row@)) && (o is Some ==> fields(
                row@,
                o->Some_0,
            )),
    ensures
        r@.len() == row_views(rows@).filter(ok).len(),
        forall|i: int|
            0 <= i < r@.len() ==> fields(row_views(rows@).filter(ok)[i], #[trigger] r@[i]),
{
    let ghost all = row_views(rows@);
    let mut r: Vec<T> = Vec::new();
    let mut i: usize = 0;
    while i < rows.len()
        invariant
            i <= rows@.len(),
            all == row_views(rows@),
            all.len() == rows@.len(),
            forall|row: &Vec<SqlValue>| #[trigger] decode.requires((row,)),
            forall|row: &Vec<SqlValue>, o: Option<T>| #[trigger]
                decode.ensures((row,), o) ==> (o is Some <==> ok(row@)) && (o is Some ==> fields(
                    row@,
                    o->Some_0,
                )),
            r@.len() == all.subrange(0, i as int).filter(ok).len(),
            forall|k: int|
                0 <= k < r@.len() ==> fields(all.subrange(0, i as int).filter(ok)[k], #[trigger] r@[k]),
        decreases rows.len() - i,
    {
        proof {
            lemma_filter_step(all, ok, i as int);
        }
        assert(all[i as int] == rows@[i as int]@);
        if let Some(x) = decode(&rows[i]) {
            r.push(x);
        }
        i = i + 1;
    }
    assert(all.subrange(0, rows@.len() as int) =~= all);
    r
}

} // verus!
