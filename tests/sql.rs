use open_tv::cache::GroupCache;
use open_tv::media_type;
use open_tv::source_type;
use open_tv::sql::{
    add_custom_channel, add_custom_group, channel_exists, channel_headers_empty,
    create_or_find_source_by_name, create_or_initialize_db, create_structure, delete_channels_by_source,
    delete_custom_channel, delete_custom_group, delete_groups_by_source, delete_source, do_tx,
    drop_db, edit_custom_channel, edit_custom_group, expect_one_row, favorite_channel,
    get_channel_count_by_source, get_channel_headers_by_id, get_custom_channel_extra_data,
    get_custom_channels, get_custom_groups, get_custom_source, get_enabled_sources, get_settings,
    get_source_from_series_id, get_sources, group_auto_complete, group_exists, group_not_empty,
    insert_channel, insert_channel_headers, search, search_group, series_has_episodes,
    set_channel_group_id, set_source_enabled, source_name_exists, structure_exists,
    update_settings, DbError, delete_source_statements, edit_headers_statement, expect_inserted,
    has_row, stored_headers, tx_end_statement,
};
use open_tv::db::SqlValue;
use open_tv::statements::{DELETE_HEADERS, DELETE_SOURCE, DELETE_SOURCE_CHANNELS, DELETE_SOURCE_GROUPS, UPSERT_HEADERS};
use open_tv::types::{Channel, ChannelHttpHeaders, CustomChannel, Filters, Group, Source};
use open_tv::view_type;
use rusqlite::Connection;

fn fresh() -> Connection {
    let mut conn = Connection::open_in_memory().unwrap();
    create_or_initialize_db(&mut conn).unwrap();
    conn
}

fn source(name: &str) -> Source {
    Source {
        id: None,
        name: name.to_string(),
        url: Some("http://example.com/list.m3u".to_string()),
        url_origin: None,
        username: None,
        password: None,
        source_type: source_type::M3U_LINK,
        enabled: true,
        use_tvg_id: Some(true),
    }
}

fn channel(name: &str, url: &str, source_id: i64, favorite: bool) -> Channel {
    Channel {
        id: None,
        name: name.to_string(),
        group: None,
        image: None,
        url: Some(url.to_string()),
        media_type: media_type::LIVESTREAM,
        source_id: Some(source_id),
        series_id: None,
        group_id: None,
        favorite,
    }
}

fn filters(source_ids: Vec<i64>, page: u8) -> Filters {
    Filters {
        query: None,
        source_ids,
        media_types: Some(vec![media_type::LIVESTREAM, media_type::MOVIE]),
        view_type: view_type::ALL,
        page,
        series_id: None,
        group_id: None,
    }
}

fn add_source(conn: &Connection, name: &str) -> i64 {
    create_or_find_source_by_name(conn, &source(name)).unwrap()
}

fn channel_id(conn: &Connection, name: &str) -> i64 {
    conn.query_row("SELECT id FROM channels WHERE name = ?", [name], |r| r.get(0)).unwrap()
}

#[test]
fn test_structure_exists() {
    let conn = Connection::open_in_memory().unwrap();
    create_structure(&conn).unwrap();
    drop_db(&conn).unwrap();
    assert_eq!(structure_exists(&conn).unwrap(), false);
    create_structure(&conn).unwrap();
    assert_eq!(structure_exists(&conn).unwrap(), true);
}

#[test]
fn test_update_settings() {
    let conn = fresh();
    let map = vec![
        ("use_stream_caching".to_string(), true.to_string()),
        ("recording_path".to_string(), "somePath".to_string()),
    ];
    update_settings(&conn, map.clone()).unwrap();
    update_settings(&conn, map).unwrap();
}

#[test]
fn test_search() {
    let conn = fresh();
    let results = search(
        &conn,
        Filters {
            media_types: Some(vec![media_type::LIVESTREAM, media_type::MOVIE]),
            page: 1,
            query: Some("Fra".to_string()),
            source_ids: get_sources(&conn).unwrap().iter().map(|x| x.id.unwrap()).collect(),
            view_type: view_type::ALL,
            group_id: None,
            series_id: None,
        },
    )
    .unwrap();
    println!("{:?}\n\n", results);
    println!("{}", results.len());
}

#[test]
fn test_drop_db() {
    let conn = Connection::open_in_memory().unwrap();
    create_structure(&conn).unwrap();
    drop_db(&conn).unwrap();
}

#[test]
fn test_search_group() {
    let conn = fresh();
    let results = search(
        &conn,
        Filters {
            media_types: None,
            page: 1,
            query: Some("Fra".to_string()),
            source_ids: get_sources(&conn).unwrap().iter().map(|x| x.id.unwrap()).collect(),
            view_type: view_type::CATEGORIES,
            group_id: None,
            series_id: None,
        },
    )
    .unwrap();
    println!("{:?}\n\n", results);
    println!("{}", results.len());
}

#[test]
fn test_get_sources() {
    let conn = fresh();
    let results = get_sources(&conn).unwrap();
    println!("{:?}", results);
}

#[test]
fn schema_absent_then_present() {
    let mut conn = Connection::open_in_memory().unwrap();
    assert!(!structure_exists(&conn).unwrap());
    create_or_initialize_db(&mut conn).unwrap();
    assert!(structure_exists(&conn).unwrap());
    // a second start applies nothing and fails on nothing
    create_or_initialize_db(&mut conn).unwrap();
}

#[test]
fn same_source_name_gives_same_id() {
    let conn = fresh();
    let a = add_source(&conn, "provider");
    let b = add_source(&conn, "provider");
    assert_eq!(a, b);
    assert_eq!(get_sources(&conn).unwrap().len(), 1);
    assert!(source_name_exists(&conn, "provider").unwrap());
    assert!(!source_name_exists(&conn, "other").unwrap());
}

#[test]
fn reinserting_a_channel_keeps_the_count() {
    let conn = fresh();
    let s = add_source(&conn, "provider");
    insert_channel(&conn, channel("France 2", "http://a/1", s, false)).unwrap();
    assert_eq!(get_channel_count_by_source(&conn, s).unwrap(), 1);
    insert_channel(&conn, channel("France 2", "http://a/1", s, false)).unwrap();
    assert_eq!(get_channel_count_by_source(&conn, s).unwrap(), 1);
    assert!(channel_exists(&conn, "France 2", "http://a/1", s).unwrap());
}

#[test]
fn refresh_keeps_favorites() {
    let conn = fresh();
    let s = add_source(&conn, "provider");
    let mut cache = GroupCache::new();
    let mut a = channel("A", "http://a/a", s, true);
    a.group = Some("News".to_string());
    set_channel_group_id(&mut cache, &mut a, &conn, &s).unwrap();
    let mut b = channel("B", "http://a/b", s, false);
    b.group = Some("Sport".to_string());
    set_channel_group_id(&mut cache, &mut b, &conn, &s).unwrap();
    insert_channel(&conn, a).unwrap();
    insert_channel(&conn, b).unwrap();
    delete_channels_by_source(&conn, s).unwrap();
    delete_groups_by_source(&conn, s).unwrap();
    let left = search(&conn, filters(vec![s], 1)).unwrap();
    assert_eq!(left.len(), 1);
    assert_eq!(left[0].name, "A");
    assert!(group_exists(&conn, "News", s).unwrap());
    assert!(!group_exists(&conn, "Sport", s).unwrap());
}

#[test]
fn pages_are_adjacent_and_past_the_end_is_empty() {
    let conn = fresh();
    let s = add_source(&conn, "provider");
    for i in 0..40 {
        insert_channel(&conn, channel(&format!("ch{:02}", i), &format!("http://a/{}", i), s, false))
            .unwrap();
    }
    let p1 = search(&conn, filters(vec![s], 1)).unwrap();
    let p2 = search(&conn, filters(vec![s], 2)).unwrap();
    let p3 = search(&conn, filters(vec![s], 3)).unwrap();
    assert_eq!(p1.len(), 36);
    assert_eq!(p2.len(), 4);
    assert_eq!(p3.len(), 0);
    assert_eq!(p1[0].name, "ch00");
    assert_eq!(p2[0].name, "ch36");
}

#[test]
fn page_zero_is_refused() {
    let conn = fresh();
    assert!(matches!(search(&conn, filters(vec![1], 0)), Err(DbError::InvalidPage)));
}

#[test]
fn categories_versus_channels() {
    let conn = fresh();
    let s = add_source(&conn, "provider");
    let mut cache = GroupCache::new();
    let mut a = channel("France 24", "http://a/a", s, false);
    a.group = Some("France".to_string());
    set_channel_group_id(&mut cache, &mut a, &conn, &s).unwrap();
    let group_id = a.group_id;
    insert_channel(&conn, a).unwrap();
    let mut f = filters(vec![s], 1);
    f.view_type = view_type::CATEGORIES;
    let cats = search(&conn, f.clone()).unwrap();
    assert_eq!(cats.len(), 1);
    assert_eq!(cats[0].media_type, media_type::GROUP);
    assert_eq!(cats[0].name, "France");
    assert!(cats[0].url.is_none());
    assert_eq!(search_group(&conn, f.clone()).unwrap().len(), 1);
    f.group_id = group_id;
    let chans = search(&conn, f).unwrap();
    assert_eq!(chans.len(), 1);
    assert_eq!(chans[0].url.as_deref(), Some("http://a/a"));
}

#[test]
fn empty_source_set_gives_empty_list() {
    let conn = fresh();
    let s = add_source(&conn, "provider");
    insert_channel(&conn, channel("A", "http://a/a", s, false)).unwrap();
    assert!(search(&conn, filters(vec![], 1)).unwrap().is_empty());
    let mut f = filters(vec![], 1);
    f.view_type = view_type::CATEGORIES;
    assert!(search(&conn, f).unwrap().is_empty());
}

#[test]
fn text_and_favorite_filters() {
    let conn = fresh();
    let s = add_source(&conn, "provider");
    insert_channel(&conn, channel("France 2", "http://a/1", s, false)).unwrap();
    insert_channel(&conn, channel("Arte", "http://a/2", s, true)).unwrap();
    let mut f = filters(vec![s], 1);
    f.query = Some("Fra".to_string());
    let found = search(&conn, f).unwrap();
    assert_eq!(found.len(), 1);
    assert_eq!(found[0].name, "France 2");
    let mut f = filters(vec![s], 1);
    f.view_type = view_type::FAVORITES;
    let favs = search(&conn, f).unwrap();
    assert_eq!(favs.len(), 1);
    assert_eq!(favs[0].name, "Arte");
    favorite_channel(&conn, channel_id(&conn, "Arte"), false).unwrap();
    let mut f = filters(vec![s], 1);
    f.view_type = view_type::FAVORITES;
    assert!(search(&conn, f).unwrap().is_empty());
}

#[test]
fn series_browse_returns_its_episodes() {
    let conn = fresh();
    let s = add_source(&conn, "provider");
    let mut ep = channel("Episode 1", "http://a/e1", s, false);
    ep.media_type = media_type::MOVIE;
    ep.series_id = Some(77);
    insert_channel(&conn, ep).unwrap();
    insert_channel(&conn, channel("Live", "http://a/l", s, false)).unwrap();
    assert!(series_has_episodes(&conn, 77).unwrap());
    assert!(!series_has_episodes(&conn, 78).unwrap());
    let mut f = filters(vec![s], 1);
    f.media_types = None;
    f.series_id = Some(77);
    let eps = search(&conn, f).unwrap();
    assert_eq!(eps.len(), 1);
    assert_eq!(eps[0].name, "Episode 1");
}

fn custom(name: &str, url: &str, s: i64, headers: Option<ChannelHttpHeaders>) -> CustomChannel {
    CustomChannel { data: channel(name, url, s, false), headers }
}

fn referrer(r: &str) -> ChannelHttpHeaders {
    ChannelHttpHeaders {
        id: None,
        channel_id: None,
        referrer: Some(r.to_string()),
        user_agent: None,
        http_origin: None,
        ignore_ssl: None,
    }
}

#[test]
fn failed_header_step_rolls_back_the_edit() {
    let conn = fresh();
    let s = add_source(&conn, "mine");
    add_custom_channel(&conn, custom("Old", "http://a/old", s, None)).unwrap();
    let id = channel_id(&conn, "Old");
    conn.execute_batch("DROP TABLE channel_http_headers").unwrap();
    let mut edit = custom("New", "http://a/new", s, Some(referrer("http://ref")));
    edit.data.id = Some(id);
    assert!(edit_custom_channel(&conn, edit).is_err());
    let (name, url): (String, String) = conn
        .query_row("SELECT name, url FROM channels WHERE id = ?", [id], |r| Ok((r.get(0)?, r.get(1)?)))
        .unwrap();
    assert_eq!(name, "Old");
    assert_eq!(url, "http://a/old");
}

#[test]
fn edit_upserts_and_removes_headers() {
    let conn = fresh();
    let s = add_source(&conn, "mine");
    add_custom_channel(&conn, custom("C", "http://a/c", s, Some(referrer("r1")))).unwrap();
    let id = channel_id(&conn, "C");
    let h = get_channel_headers_by_id(&conn, id).unwrap().unwrap();
    assert_eq!(h.referrer.as_deref(), Some("r1"));
    let mut edit = custom("C2", "http://a/c", s, Some(referrer("r2")));
    edit.data.id = Some(id);
    edit_custom_channel(&conn, edit).unwrap();
    let h = get_channel_headers_by_id(&conn, id).unwrap().unwrap();
    assert_eq!(h.referrer.as_deref(), Some("r2"));
    let mut edit = custom("C2", "http://a/c", s, None);
    edit.data.id = Some(id);
    edit_custom_channel(&conn, edit).unwrap();
    assert!(get_channel_headers_by_id(&conn, id).unwrap().is_none());
}

#[test]
fn empty_headers_are_not_stored() {
    let conn = fresh();
    let s = add_source(&conn, "mine");
    let empty = ChannelHttpHeaders {
        id: None,
        channel_id: None,
        referrer: None,
        user_agent: None,
        http_origin: None,
        ignore_ssl: None,
    };
    assert!(channel_headers_empty(&empty));
    assert!(!channel_headers_empty(&referrer("r")));
    add_custom_channel(&conn, custom("E", "http://a/e", s, Some(empty))).unwrap();
    let id = channel_id(&conn, "E");
    assert!(get_channel_headers_by_id(&conn, id).unwrap().is_none());
}

#[test]
fn settings_merge() {
    let conn = fresh();
    update_settings(&conn, vec![("a".to_string(), "1".to_string())]).unwrap();
    update_settings(&conn, vec![("b".to_string(), "2".to_string())]).unwrap();
    let mut got = get_settings(&conn).unwrap();
    got.sort();
    assert_eq!(got, vec![("a".to_string(), "1".to_string()), ("b".to_string(), "2".to_string())]);
    update_settings(&conn, vec![("a".to_string(), "3".to_string())]).unwrap();
    let mut got = get_settings(&conn).unwrap();
    got.sort();
    assert_eq!(got, vec![("a".to_string(), "3".to_string()), ("b".to_string(), "2".to_string())]);
}

#[test]
fn deleting_a_source_cascades() {
    let conn = fresh();
    let s = add_source(&conn, "provider");
    let mut cache = GroupCache::new();
    let mut a = channel("A", "http://a/a", s, true);
    a.group = Some("G".to_string());
    set_channel_group_id(&mut cache, &mut a, &conn, &s).unwrap();
    insert_channel(&conn, a).unwrap();
    delete_source(&conn, s).unwrap();
    assert_eq!(get_channel_count_by_source(&conn, s).unwrap(), 0);
    assert!(!group_exists(&conn, "G", s).unwrap());
    assert!(get_sources(&conn).unwrap().is_empty());
    assert!(matches!(delete_source(&conn, s), Err(DbError::NotFound)));
    assert!(matches!(delete_source(&conn, 12345), Err(DbError::NotFound)));
}

#[test]
fn one_row_expected() {
    assert!(expect_one_row(1).is_ok());
    assert!(matches!(expect_one_row(0), Err(DbError::NotFound)));
    assert!(matches!(expect_one_row(2), Err(DbError::NotFound)));
}

#[test]
fn group_cache_inserts_each_name_once() {
    let conn = fresh();
    let s = add_source(&conn, "provider");
    let mut cache = GroupCache::new();
    let mut a = channel("A", "http://a/a", s, false);
    a.group = Some("G".to_string());
    set_channel_group_id(&mut cache, &mut a, &conn, &s).unwrap();
    let mut b = channel("B", "http://a/b", s, false);
    b.group = Some("G".to_string());
    set_channel_group_id(&mut cache, &mut b, &conn, &s).unwrap();
    assert!(a.group_id.is_some());
    assert_eq!(a.group_id, b.group_id);
    assert_eq!(cache.get("G"), a.group_id);
    assert_eq!(cache.get("H"), None);
    let mut c = channel("C", "http://a/c", s, false);
    set_channel_group_id(&mut cache, &mut c, &conn, &s).unwrap();
    assert_eq!(c.group_id, None);
    // a fresh cache meets the stored group: the insert changes no row
    let mut fresh_cache = GroupCache::new();
    let mut d = channel("D", "http://a/d", s, false);
    d.group = Some("G".to_string());
    assert!(matches!(
        set_channel_group_id(&mut fresh_cache, &mut d, &conn, &s),
        Err(DbError::GroupNotInserted)
    ));
    assert_eq!(fresh_cache.get("G"), None);
    assert_eq!(d.group_id, None);
}

#[test]
fn enabled_sources_and_custom_source() {
    let conn = fresh();
    let a = add_source(&conn, "a");
    let custom_source = get_custom_source("mine".to_string());
    assert_eq!(custom_source.source_type, source_type::CUSTOM);
    assert!(custom_source.enabled && custom_source.url.is_none() && custom_source.id.is_none());
    add_source(&conn, "mine");
    set_source_enabled(&conn, false, a).unwrap();
    let enabled = get_enabled_sources(&conn).unwrap();
    assert_eq!(enabled.len(), 1);
    assert_eq!(enabled[0].name, "mine");
    let all = get_sources(&conn).unwrap();
    assert_eq!(all.len(), 2);
    assert_eq!(all[0].use_tvg_id, Some(true));
}

#[test]
fn source_of_a_series() {
    let conn = fresh();
    let s = add_source(&conn, "provider");
    let mut series = channel("Show", "501", s, false);
    series.media_type = media_type::SERIES;
    insert_channel(&conn, series).unwrap();
    assert_eq!(get_source_from_series_id(&conn, 501).unwrap().name, "provider");
    assert!(matches!(get_source_from_series_id(&conn, 502), Err(DbError::NotFound)));
}

#[test]
fn custom_groups_round_trip() {
    let conn = fresh();
    let s = add_source(&conn, "mine");
    let g = do_tx(&conn, |c| {
        add_custom_group(c, Group { id: None, name: "Kids".to_string(), image: None, source_id: Some(s) })
    })
    .unwrap();
    let mut ch = custom("Cartoons", "http://a/k", s, Some(referrer("r")));
    ch.data.group_id = Some(g);
    add_custom_channel(&conn, ch).unwrap();
    add_custom_channel(&conn, custom("Loose", "http://a/l", s, None)).unwrap();
    assert!(group_not_empty(&conn, g).unwrap());
    let auto = group_auto_complete(&conn, Some("Ki".to_string()), s).unwrap();
    assert_eq!(auto.len(), 1);
    assert_eq!(auto[0].id, g);
    let exported = get_custom_groups(&conn, s).unwrap();
    assert_eq!(exported.len(), 1);
    assert_eq!(exported[0].group.name, "Kids");
    assert_eq!(exported[0].group.id, None);
    assert_eq!(exported[0].channels.len(), 1);
    assert_eq!(exported[0].channels[0].data.name, "Cartoons");
    let ungrouped = get_custom_channels(&conn, None, s).unwrap();
    assert_eq!(ungrouped.len(), 1);
    assert_eq!(ungrouped[0].data.name, "Loose");
    let id = channel_id(&conn, "Cartoons");
    let extra = get_custom_channel_extra_data(&conn, id, Some(g)).unwrap();
    assert_eq!(extra.group.unwrap().name, "Kids");
    assert_eq!(extra.headers.unwrap().referrer.as_deref(), Some("r"));
    edit_custom_group(&conn, Group { id: Some(g), name: "Children".to_string(), image: None, source_id: None })
        .unwrap();
    assert!(group_exists(&conn, "Children", s).unwrap());
    delete_custom_group(&conn, g, None, true).unwrap();
    assert!(!group_exists(&conn, "Children", s).unwrap());
    assert_eq!(get_custom_channels(&conn, None, s).unwrap().len(), 2);
    delete_custom_channel(&conn, id).unwrap();
    assert_eq!(get_custom_channels(&conn, None, s).unwrap().len(), 1);
}

#[test]
fn headers_insert_keeps_the_first_set() {
    let conn = fresh();
    let s = add_source(&conn, "p");
    insert_channel(&conn, channel("H", "http://a/h", s, false)).unwrap();
    let id = channel_id(&conn, "H");
    let mut h = referrer("first");
    h.channel_id = Some(id);
    insert_channel_headers(&conn, h).unwrap();
    let mut h = referrer("second");
    h.channel_id = Some(id);
    insert_channel_headers(&conn, h).unwrap();
    assert_eq!(get_channel_headers_by_id(&conn, id).unwrap().unwrap().referrer.as_deref(), Some("first"));
}

#[test]
fn tls_flag_alone_is_stored() {
    let conn = fresh();
    let s = add_source(&conn, "mine");
    let h = ChannelHttpHeaders {
        id: None,
        channel_id: None,
        referrer: None,
        user_agent: None,
        http_origin: None,
        ignore_ssl: Some(true),
    };
    add_custom_channel(&conn, custom("T", "http://a/t", s, Some(h))).unwrap();
    let id = channel_id(&conn, "T");
    assert_eq!(get_channel_headers_by_id(&conn, id).unwrap().unwrap().ignore_ssl, Some(true));
}

#[test]
fn text_that_is_not_utf8_does_not_panic() {
    let conn = fresh();
    let s = add_source(&conn, "p");
    insert_channel(&conn, channel("ok", "http://a/ok", s, false)).unwrap();
    conn.execute("UPDATE channels SET name = CAST(x'ff' AS TEXT)", []).unwrap();
    // the row's name is not text any more: it is skipped, not a panic
    assert!(search(&conn, filters(vec![s], 1)).unwrap().is_empty());
}

#[test]
fn small_decisions() {
    assert!(has_row(&vec![vec![SqlValue::Integer(1)]]));
    assert!(!has_row(&vec![]));
    assert!(expect_inserted(1).is_ok());
    assert!(matches!(expect_inserted(0), Err(DbError::GroupNotInserted)));
    assert_eq!(tx_end_statement(true), "COMMIT");
    assert_eq!(tx_end_statement(false), "ROLLBACK");
    assert!(stored_headers(None).is_none());
    assert!(stored_headers(Some(referrer("r"))).is_some());
    let empty = ChannelHttpHeaders {
        id: None,
        channel_id: None,
        referrer: None,
        user_agent: None,
        http_origin: None,
        ignore_ssl: None,
    };
    assert!(stored_headers(Some(empty)).is_none());
}

#[test]
fn edit_statements_choose_upsert_or_delete() {
    let mut c = custom("C", "http://a/c", 1, Some(referrer("r")));
    c.data.id = Some(9);
    let q = edit_headers_statement(&c);
    assert_eq!(q.sql, UPSERT_HEADERS);
    assert_eq!(q.params.len(), 5);
    assert_eq!(q.params[0], SqlValue::Text("r".to_string()));
    assert_eq!(q.params[4], SqlValue::Integer(9));
    c.headers = None;
    let q = edit_headers_statement(&c);
    assert_eq!(q.sql, DELETE_HEADERS);
    assert_eq!(q.params, vec![SqlValue::Integer(9)]);
    let (a, b, d) = delete_source_statements(4);
    assert_eq!(a.sql, DELETE_SOURCE_CHANNELS);
    assert_eq!(b.sql, DELETE_SOURCE_GROUPS);
    assert_eq!(d.sql, DELETE_SOURCE);
    assert_eq!(d.params, vec![SqlValue::Integer(4)]);
}
