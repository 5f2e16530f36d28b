//! The rules that the playlist cache applies around its database: how a
//! search is phrased, how records are keyed and numbered, and when a
//! playlist counts as cached.

use crate::containers::lowercase;
use crate::text::{decimal, u64_to_decimal};
use crate::types::{CachedCategory, CachedCategoryView, CachedChannel, CachedChannelView};
use vstd::prelude::*;
use vstd::string::StringExecFns;

verus! {

/// The number of channels that a search returns when the caller names no
/// limit.
pub const DEFAULT_SEARCH_LIMIT: i32 = 50;

/// The kinds of content that a playlist may hold, in the order in which
/// they are looked up.
pub open spec fn content_type_names() -> Seq<Seq<char>> {
    seq!["live"@, "movie"@, "series"@]
}

/// The `LIKE` pattern of a search: the query in lower case between two
/// percent signs, so that it is found anywhere in a name.
pub open spec fn search_pattern_of(query: Seq<char>) -> Seq<char> {
    seq!['%'] + lowercase(query) + seq!['%']
}

/// The key under which a record of a playlist is stored: the playlist's
/// id, an underscore, and the record's own id.
pub open spec fn record_key_of(playlist_id: Seq<char>, id: Seq<char>) -> Seq<char> {
    playlist_id + seq!['_'] + id
}

/// The limit of a search: the caller's, or the default.
pub fn search_limit(limit: Option<i32>) -> (effective: i32)
    ensures
        effective == match limit {
            Some(l) => l,
            None => DEFAULT_SEARCH_LIMIT,
        },
{
    match limit {
        Some(l) => l,
        None => DEFAULT_SEARCH_LIMIT,
    }
}

/// Phrases a search for `query` as a `LIKE` pattern.
pub fn search_pattern(query: &str) -> (pattern: String)
    ensures
        pattern@ == search_pattern_of(query@),
{
    let lower = query.to_lowercase();
    let mut pattern = String::new();
    pattern.push('%');
    pattern.append(lower.as_str());
    pattern.push('%');
    assert(pattern@ =~= search_pattern_of(query@));
    pattern
}

/// Whether a count of rows says that there are any.
pub fn has_rows(count: i64) -> (any: bool)
    ensures
        any == (count > 0),
{
    count > 0
}

/// The kinds of content, in the order in which they are looked up.
pub fn content_types() -> (kinds: Vec<String>)
    ensures
        crate::types::texts(kinds@) == content_type_names(),
{
    let mut kinds: Vec<String> = Vec::new();
    kinds.push("live".to_owned());
    kinds.push("movie".to_owned());
    kinds.push("series".to_owned());
    assert(crate::types::texts(kinds@) =~= content_type_names());
    kinds
}

/// Builds the key under which the record `id` of the playlist
/// `playlist_id` is stored.
pub fn record_key(playlist_id: &str, id: &str) -> (key: String)
    ensures
        key@ == record_key_of(playlist_id@, id@),
{
    let mut key = playlist_id.to_owned();
    key.push('_');
    key.append(id);
    key
}

/// Numbers categories as they come out of a query: each gets its position,
/// counted from zero, as its id, and keeps everything else.
pub fn number_categories(records: Vec<CachedCategory>) -> (categories: Vec<CachedCategory>)
    ensures
        categories@.len() == records@.len(),
        forall|i: int|
            0 <= i < records@.len() ==> #[trigger] categories@[i]@ == (CachedCategoryView {
                id: decimal(i as nat),
                ..records@[i]@
            }),
{
    let mut categories: Vec<CachedCategory> = Vec::new();
    let mut i: usize = 0;
    while i < records.len()
        invariant
            i <= records.len(),
            categories@.len() == i,
            forall|k: int|
                0 <= k < i ==> #[trigger] categories@[k]@ == (CachedCategoryView {
                    id: decimal(k as nat),
                    ..records@[k]@
                }),
        decreases records.len() - i,
    {
        let record = &records[i];
        let numbered = CachedCategory {
            id: u64_to_decimal(i as u64),
            name: record.name.clone(),
            content_type: record.content_type.clone(),
        };
        categories.push(numbered);
        i += 1;
    }
    categories
}

/// Numbers channels as they come out of a query: each gets its position,
/// counted from zero, as its id, and keeps everything else.
pub fn number_channels(records: Vec<CachedChannel>) -> (channels: Vec<CachedChannel>)
    ensures
        channels@.len() == records@.len(),
        forall|i: int|
            0 <= i < records@.len() ==> #[trigger] channels@[i]@ == (CachedChannelView {
                id: decimal(i as nat),
                ..records@[i]@
            }),
{
    let mut channels: Vec<CachedChannel> = Vec::new();
    let mut i: usize = 0;
    while i < records.len()
        invariant
            i <= records.len(),
            channels@.len() == i,
            forall|k: int|
                0 <= k < i ==> #[trigger] channels@[k]@ == (CachedChannelView {
                    id: decimal(k as nat),
                    ..records@[k]@
                }),
        decreases records.len() - i,
    {
        let record = &records[i];
        let numbered = CachedChannel {
            id: u64_to_decimal(i as u64),
            name: record.name.clone(),
            url: record.url.clone(),
            logo: record.logo.clone(),
            group_title: record.group_title.clone(),
            content_type: record.content_type.clone(),
            category_id: record.category_id.clone(),
            stream_id: record.stream_id.clone(),
            container_extension: record.container_extension.clone(),
        };
        channels.push(numbered);
        i += 1;
    }
    channels
}

} // verus!
