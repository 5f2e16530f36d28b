//! The records that cross the library's boundary, each with its
//! mathematical view.

use vstd::prelude::*;

verus! {

/// The view of an optional string.
pub open spec fn opt_text(o: Option<String>) -> Option<Seq<char>> {
    match o {
        Some(s) => Some(s@),
        None => None,
    }
}

/// The views of a vector of strings, in order.
pub open spec fn texts(v: Seq<String>) -> Seq<Seq<char>> {
    Seq::new(v.len(), |i: int| v[i]@)
}

/// One entry of a playlist.
#[derive(Debug, Clone, PartialEq, Eq)]
pub struct PlaylistItem {
    pub id: String,
    pub name: String,
    pub url: String,
    pub tvg_id: Option<String>,
    pub tvg_logo: Option<String>,
    pub group_title: String,
}

/// `PlaylistItem` as a mathematical value.
pub struct PlaylistItemView {
    pub id: Seq<char>,
    pub name: Seq<char>,
    pub url: Seq<char>,
    pub tvg_id: Option<Seq<char>>,
    pub tvg_logo: Option<Seq<char>>,
    pub group_title: Seq<char>,
}

impl View for PlaylistItem {
    type V = PlaylistItemView;

    open spec fn view(&self) -> PlaylistItemView {
        PlaylistItemView {
            id: self.id@,
            name: self.name@,
            url: self.url@,
            tvg_id: opt_text(self.tvg_id),
            tvg_logo: opt_text(self.tvg_logo),
            group_title: self.group_title@,
        }
    }
}

/// The views of a vector of entries, in order.
pub open spec fn item_views(items: Seq<PlaylistItem>) -> Seq<PlaylistItemView> {
    Seq::new(items.len(), |i: int| items[i]@)
}

/// A parsed playlist: its entries in file order and the group titles that
/// occur among them.
#[derive(Debug, Clone, PartialEq, Eq)]
pub struct ParsedPlaylist {
    pub items: Vec<PlaylistItem>,
    pub categories: Vec<String>,
}

/// `ParsedPlaylist` as a mathematical value.
pub struct ParsedPlaylistView {
    pub items: Seq<PlaylistItemView>,
    pub categories: Seq<Seq<char>>,
}

impl View for ParsedPlaylist {
    type V = ParsedPlaylistView;

    open spec fn view(&self) -> ParsedPlaylistView {
        ParsedPlaylistView {
            items: item_views(self.items@),
            categories: texts(self.categories@),
        }
    }
}

/// The coarse state of a download as it is reported to observers.
#[derive(Debug, Clone, Copy, PartialEq, Eq, Structural)]
pub enum DownloadStatus {
    Downloading,
    Completed,
    Error,
    Cancelled,
}

/// A share of a whole, `part / whole`, between zero and one.
#[derive(Debug, Clone, Copy, PartialEq, Eq, Structural)]
pub struct Fraction {
    pub part: u64,
    pub whole: u64,
}

impl Fraction {
    /// A fraction denotes a number in the unit interval.
    pub open spec fn wf(self) -> bool {
        self.part <= self.whole && self.whole > 0
    }

    /// Whether the fraction is exactly one.
    pub open spec fn is_one(self) -> bool {
        self.part == self.whole && self.whole > 0
    }

    /// Whether the fraction is exactly zero.
    pub open spec fn is_zero(self) -> bool {
        self.part == 0 && self.whole > 0
    }
}

/// A snapshot of one download's progress.
#[derive(Debug, Clone, PartialEq, Eq)]
pub struct DownloadProgress {
    pub id: String,
    pub progress: Fraction,
    pub status: DownloadStatus,
    pub downloaded_bytes: u64,
    pub total_bytes: Option<u64>,
    pub speed: Option<u64>,
}

/// `DownloadProgress` as a mathematical value.
pub struct DownloadProgressView {
    pub id: Seq<char>,
    pub progress: Fraction,
    pub status: DownloadStatus,
    pub downloaded_bytes: u64,
    pub total_bytes: Option<u64>,
    pub speed: Option<u64>,
}

impl View for DownloadProgress {
    type V = DownloadProgressView;

    open spec fn view(&self) -> DownloadProgressView {
        DownloadProgressView {
            id: self.id@,
            progress: self.progress,
            status: self.status,
            downloaded_bytes: self.downloaded_bytes,
            total_bytes: self.total_bytes,
            speed: self.speed,
        }
    }
}

/// What a completed download leaves behind.
#[derive(Debug, Clone, PartialEq, Eq)]
pub struct DownloadedItem {
    pub id: String,
    pub name: String,
    pub local_path: String,
    pub original_url: String,
    pub thumbnail: Option<String>,
    pub downloaded_at: u64,
    pub size: Option<u64>,
}

/// `DownloadedItem` as a mathematical value.
pub struct DownloadedItemView {
    pub id: Seq<char>,
    pub name: Seq<char>,
    pub local_path: Seq<char>,
    pub original_url: Seq<char>,
    pub thumbnail: Option<Seq<char>>,
    pub downloaded_at: u64,
    pub size: Option<u64>,
}

impl View for DownloadedItem {
    type V = DownloadedItemView;

    open spec fn view(&self) -> DownloadedItemView {
        DownloadedItemView {
            id: self.id@,
            name: self.name@,
            local_path: self.local_path@,
            original_url: self.original_url@,
            thumbnail: opt_text(self.thumbnail),
            downloaded_at: self.downloaded_at,
            size: self.size,
        }
    }
}

/// A category as the cache hands it out.
#[derive(Debug, Clone, PartialEq, Eq)]
pub struct CachedCategory {
    pub id: String,
    pub name: String,
    pub content_type: String,
}

/// `CachedCategory` as a mathematical value.
pub struct CachedCategoryView {
    pub id: Seq<char>,
    pub name: Seq<char>,
    pub content_type: Seq<char>,
}

impl View for CachedCategory {
    type V = CachedCategoryView;

    open spec fn view(&self) -> CachedCategoryView {
        CachedCategoryView { id: self.id@, name: self.name@, content_type: self.content_type@ }
    }
}

/// A channel as the cache hands it out.
#[derive(Debug, Clone, PartialEq, Eq)]
pub struct CachedChannel {
    pub id: String,
    pub name: String,
    pub url: String,
    pub logo: Option<String>,
    pub group_title: Option<String>,
    pub content_type: String,
    pub category_id: Option<String>,
    pub stream_id: Option<String>,
    pub container_extension: Option<String>,
}

/// `CachedChannel` as a mathematical value.
pub struct CachedChannelView {
    pub id: Seq<char>,
    pub name: Seq<char>,
    pub url: Seq<char>,
    pub logo: Option<Seq<char>>,
    pub group_title: Option<Seq<char>>,
    pub content_type: Seq<char>,
    pub category_id: Option<Seq<char>>,
    pub stream_id: Option<Seq<char>>,
    pub container_extension: Option<Seq<char>>,
}

impl View for CachedChannel {
    type V = CachedChannelView;

    open spec fn view(&self) -> CachedChannelView {
        CachedChannelView {
            id: self.id@,
            name: self.name@,
            url: self.url@,
            logo: opt_text(self.logo),
            group_title: opt_text(self.group_title),
            content_type: self.content_type@,
            category_id: opt_text(self.category_id),
            stream_id: opt_text(self.stream_id),
            container_extension: opt_text(self.container_extension),
        }
    }
}

/// Where the viewer last was.
#[derive(Debug, Clone, PartialEq, Eq)]
pub struct LastViewedState {
    pub playlist_id: String,
    pub channel_id: Option<String>,
    pub category_id: Option<String>,
    pub content_type: String,
}

/// `LastViewedState` as a mathematical value.
pub struct LastViewedStateView {
    pub playlist_id: Seq<char>,
    pub channel_id: Option<Seq<char>>,
    pub category_id: Option<Seq<char>>,
    pub content_type: Seq<char>,
}

impl View for LastViewedState {
    type V = LastViewedStateView;

    open spec fn view(&self) -> LastViewedStateView {
        LastViewedStateView {
            playlist_id: self.playlist_id@,
            channel_id: opt_text(self.channel_id),
            category_id: opt_text(self.category_id),
            content_type: self.content_type@,
        }
    }
}

} // verus!
