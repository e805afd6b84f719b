use open_tv::db::SqlValue;
use open_tv::media_type;
use open_tv::query::{
    browses_categories, compile_channel_query, compile_group_query, generate_placeholders,
    to_sql_like, CHANNEL_SELECT, GROUP_SELECT, NEVER,
};
use open_tv::rows::{row_to_channel, row_to_group, row_to_source};
use open_tv::types::Filters;
use open_tv::view_type;

fn filters() -> Filters {
    Filters {
        query: Some("Fra".to_string()),
        source_ids: vec![4, 9],
        media_types: Some(vec![media_type::LIVESTREAM, media_type::MOVIE]),
        view_type: view_type::ALL,
        page: 3,
        series_id: None,
        group_id: None,
    }
}

#[test]
fn placeholders_are_comma_separated() {
    assert_eq!(generate_placeholders(0), "");
    assert_eq!(generate_placeholders(1), "?");
    assert_eq!(generate_placeholders(3), "?,?,?");
}

#[test]
fn like_patterns() {
    assert_eq!(to_sql_like(Some("Fra".to_string())), "%Fra%");
    assert_eq!(to_sql_like(None), "%");
}

#[test]
fn channel_query_text_and_params() {
    let q = compile_channel_query(&filters());
    assert_eq!(
        q.sql,
        format!(
            "{} WHERE name LIKE ? AND media_type IN (?,?) AND source_id IN (?,?) AND url IS NOT NULL LIMIT ?, ?",
            CHANNEL_SELECT
        )
    );
    assert_eq!(
        q.params,
        vec![
            SqlValue::Text("%Fra%".to_string()),
            SqlValue::Integer(0),
            SqlValue::Integer(1),
            SqlValue::Integer(4),
            SqlValue::Integer(9),
            SqlValue::Integer(72),
            SqlValue::Integer(36),
        ]
    );
    assert_eq!(q.sql.matches('?').count(), q.params.len());
}

#[test]
fn series_scope_forces_episodes() {
    let mut f = filters();
    f.series_id = Some(5);
    f.group_id = Some(6);
    f.view_type = view_type::FAVORITES;
    f.page = 1;
    let q = compile_channel_query(&f);
    assert!(q.sql.ends_with("media_type IN (?) AND source_id IN (?,?) AND url IS NOT NULL AND series_id = ? LIMIT ?, ?"));
    assert_eq!(q.params[1], SqlValue::Integer(1));
    assert_eq!(q.params[4], SqlValue::Integer(5));
    assert_eq!(q.params[5], SqlValue::Integer(0));
}

#[test]
fn favorites_and_group_scope() {
    let mut f = filters();
    f.view_type = view_type::FAVORITES;
    f.group_id = Some(6);
    let q = compile_channel_query(&f);
    assert!(q.sql.ends_with("AND url IS NOT NULL AND favorite = 1 AND group_id = ? LIMIT ?, ?"));
    assert_eq!(q.params[5], SqlValue::Integer(6));
}

#[test]
fn empty_sets_never_match() {
    let mut f = filters();
    f.source_ids = vec![];
    f.media_types = None;
    let q = compile_channel_query(&f);
    assert_eq!(
        q.sql,
        format!("{} WHERE name LIKE ? AND {} AND {} AND url IS NOT NULL LIMIT ?, ?", CHANNEL_SELECT, NEVER, NEVER)
    );
    assert_eq!(q.params.len(), 3);
    let g = compile_group_query(&f);
    assert_eq!(g.sql, format!("{} WHERE name LIKE ? AND {} LIMIT ?, ?", GROUP_SELECT, NEVER));
}

#[test]
fn group_query_text_and_params() {
    let mut f = filters();
    f.query = None;
    let q = compile_group_query(&f);
    assert_eq!(q.sql, format!("{} WHERE name LIKE ? AND source_id IN (?,?) LIMIT ?, ?", GROUP_SELECT));
    assert_eq!(
        q.params,
        vec![
            SqlValue::Text("%".to_string()),
            SqlValue::Integer(4),
            SqlValue::Integer(9),
            SqlValue::Integer(72),
            SqlValue::Integer(36),
        ]
    );
}

#[test]
fn category_decision() {
    let mut f = filters();
    assert!(!browses_categories(&f));
    f.view_type = view_type::CATEGORIES;
    assert!(browses_categories(&f));
    f.group_id = Some(1);
    assert!(!browses_categories(&f));
    f.group_id = None;
    f.series_id = Some(1);
    assert!(!browses_categories(&f));
}

#[test]
fn rows_decode_by_column_type() {
    let row = vec![
        SqlValue::Integer(1),
        SqlValue::Text("A".to_string()),
        SqlValue::Null,
        SqlValue::Null,
        SqlValue::Integer(0),
        SqlValue::Integer(2),
        SqlValue::Text("http://a".to_string()),
        SqlValue::Integer(1),
    ];
    let c = row_to_channel(&row).unwrap();
    assert_eq!(c.id, Some(1));
    assert!(c.favorite);
    assert_eq!(c.url.as_deref(), Some("http://a"));
    let mut no_url = row.clone();
    no_url[6] = SqlValue::Null;
    assert!(row_to_channel(&no_url).is_none());
    let mut bad_kind = row.clone();
    bad_kind[4] = SqlValue::Integer(300);
    assert!(row_to_channel(&bad_kind).is_none());
    let g = row_to_group(&vec![SqlValue::Integer(3), SqlValue::Text("G".to_string()), SqlValue::Null, SqlValue::Integer(2)])
        .unwrap();
    assert_eq!(g.media_type, media_type::GROUP);
    assert!(g.url.is_none());
    assert!(row_to_source(&row[..2].to_vec()).is_none());
}
