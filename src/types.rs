//! The catalog's entities and the search request.
use vstd::prelude::*;

verus! {

/// A playable entry, or a category row synthesized by the group-browse query.
#[derive(Debug, Clone)]
pub struct Channel {
    pub id: Option<i64>,
    pub name: String,
    /// Group name as read from a playlist; resolved to `group_id` on import.
    pub group: Option<String>,
    pub image: Option<String>,
    pub url: Option<String>,
    pub media_type: u8,
    pub source_id: Option<i64>,
    pub series_id: Option<i64>,
    pub group_id: Option<i64>,
    pub favorite: bool,
}

/// A provider or bucket of channels.
#[derive(Debug, Clone)]
pub struct Source {
    pub id: Option<i64>,
    pub name: String,
    pub url: Option<String>,
    pub url_origin: Option<String>,
    pub username: Option<String>,
    pub password: Option<String>,
    pub source_type: u8,
    pub enabled: bool,
    pub use_tvg_id: Option<bool>,
}

/// A named category of channels within one source.
#[derive(Debug, Clone)]
pub struct Group {
    pub id: Option<i64>,
    pub name: String,
    pub image: Option<String>,
    pub source_id: Option<i64>,
}

/// Per-channel network overrides.
#[derive(Debug, Clone)]
pub struct ChannelHttpHeaders {
    pub id: Option<i64>,
    pub channel_id: Option<i64>,
    pub referrer: Option<String>,
    pub user_agent: Option<String>,
    pub http_origin: Option<String>,
    pub ignore_ssl: Option<bool>,
}

/// A channel of a custom source, with its optional headers.
#[derive(Debug, Clone)]
pub struct CustomChannel {
    pub data: Channel,
    pub headers: Option<ChannelHttpHeaders>,
}

/// What the edit form of a custom channel shows besides the channel.
#[derive(Debug, Clone)]
pub struct CustomChannelExtraData {
    pub headers: Option<ChannelHttpHeaders>,
    pub group: Option<Group>,
}

/// A group of a custom source together with its channels, for export.
#[derive(Debug, Clone)]
pub struct ExportedGroup {
    pub group: Group,
    pub channels: Vec<CustomChannel>,
}

#[derive(Debug, Clone)]
pub struct IdName {
    pub id: i64,
    pub name: String,
}

/// A browse request: one page of channels, or of categories.
#[derive(Debug, Clone)]
pub struct Filters {
    /// Substring to look for in names; everything when absent.
    pub query: Option<String>,
    pub source_ids: Vec<i64>,
    /// Allowed media kinds; ignored when a series is browsed.
    pub media_types: Option<Vec<u8>>,
    pub view_type: u8,
    /// 1-based page number.
    pub page: u8,
    pub series_id: Option<i64>,
    pub group_id: Option<i64>,
}

} // verus!
