//! Plain data received from the torrent daemon.

use vstd::prelude::*;

verus! {

/// What a torrent is doing, as the daemon reports it.
#[derive(Clone, Copy, Debug, PartialEq, Eq, Structural)]
pub enum TorrentStatus {
    Stopped,
    QueuedToVerify,
    Verifying,
    QueuedToDownload,
    Downloading,
    QueuedToSeed,
    Seeding,
}

/// One torrent at one point in time, each column in its display form. An
/// empty column text means that there is nothing to show in that column.
/// A snapshot is never edited: every poll brings entirely new values.
#[derive(Clone, Debug, PartialEq, Eq)]
pub struct TorrentSnapshot {
    pub id: i64,
    pub torrent_name: String,
    pub size_when_done: String,
    pub progress: String,
    pub eta_secs: String,
    pub download_speed: String,
    pub upload_speed: String,
    pub status: TorrentStatus,
}

/// Session-wide counters of the daemon at one point in time.
#[derive(Clone, Copy, Debug, PartialEq, Eq, Structural)]
pub struct SessionStats {
    pub torrent_count: i32,
    pub active_torrent_count: i32,
    pub paused_torrent_count: i32,
    pub download_speed: i64,
    pub upload_speed: i64,
}

/// A failed call to the daemon: transport trouble or a refusal.
#[derive(Clone, Debug, PartialEq, Eq)]
pub struct RpcError {
    pub message: String,
}

} // verus!
