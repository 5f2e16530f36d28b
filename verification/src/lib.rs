//! Verified core of a media companion service: the registry of running
//! downloads, the download task, the transcode supervisor and the text rules
//! they share.

pub mod cache;
pub mod containers;
pub mod download;
pub mod naming;
pub mod paths;
pub mod player;
pub mod playlist;
pub mod registry;
pub mod text;
pub mod transcode;
pub mod types;
