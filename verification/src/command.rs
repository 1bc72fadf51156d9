//! The mutating calls that the dashboard asks the daemon to make.

use crate::torrent::{TorrentSnapshot, TorrentStatus};
use vstd::prelude::*;

verus! {

/// The kind of a mutating call.
#[derive(Clone, Copy, Debug, PartialEq, Eq, Structural)]
pub enum TaskKind {
    Add,
    Delete,
    Start,
    Stop,
}

/// A mutating call to the daemon, with its arguments.
#[derive(Clone, Debug, PartialEq, Eq)]
pub enum TorrentAction {
    /// Add the torrent at this magnet link or path, into this directory.
    Add(String, Option<String>),
    /// Start these torrents.
    Start(Vec<i64>),
    /// Stop these torrents.
    Stop(Vec<i64>),
    /// Remove these torrents, with their files or without.
    Delete(Vec<i64>, bool),
}

/// A mutating call over plain sequences.
pub enum TorrentActionModel {
    Add(Seq<char>, Option<Seq<char>>),
    Start(Seq<i64>),
    Stop(Seq<i64>),
    Delete(Seq<i64>, bool),
}

impl TorrentActionModel {
    /// The kind of the call.
    pub open spec fn kind(self) -> TaskKind {
        match self {
            TorrentActionModel::Add(_, _) => TaskKind::Add,
            TorrentActionModel::Start(_) => TaskKind::Start,
            TorrentActionModel::Stop(_) => TaskKind::Stop,
            TorrentActionModel::Delete(_, _) => TaskKind::Delete,
        }
    }
}

impl View for TorrentAction {
    type V = TorrentActionModel;

    open spec fn view(&self) -> TorrentActionModel {
        match self {
            TorrentAction::Add(source, directory) => TorrentActionModel::Add(
                source@,
                match directory {
                    None => None,
                    Some(d) => Some(d@),
                },
            ),
            TorrentAction::Start(ids) => TorrentActionModel::Start(ids@),
            TorrentAction::Stop(ids) => TorrentActionModel::Stop(ids@),
            TorrentAction::Delete(ids, with_files) => TorrentActionModel::Delete(ids@, *with_files),
        }
    }
}

impl TorrentAction {
    /// The kind of the call.
    pub fn kind(&self) -> (kind: TaskKind)
        ensures
            kind == self@.kind(),
    {
        match self {
            TorrentAction::Add(_, _) => TaskKind::Add,
            TorrentAction::Start(_) => TaskKind::Start,
            TorrentAction::Stop(_) => TaskKind::Stop,
            TorrentAction::Delete(_, _) => TaskKind::Delete,
        }
    }
}

/// A call together with the words that describe it to the user.
#[derive(Clone, Debug, PartialEq, Eq)]
pub struct Command {
    pub action: TorrentAction,
    pub description: String,
}

/// A described call over plain sequences.
pub struct CommandModel {
    pub action: TorrentActionModel,
    pub description: Seq<char>,
}

impl View for Command {
    type V = CommandModel;

    open spec fn view(&self) -> CommandModel {
        CommandModel { action: self.action@, description: self.description@ }
    }
}

/// Pausing toggles: a stopped torrent is started, any other is stopped.
pub open spec fn pause_action(status: TorrentStatus, id: i64) -> TorrentActionModel {
    if status == TorrentStatus::Stopped {
        TorrentActionModel::Start(seq![id])
    } else {
        TorrentActionModel::Stop(seq![id])
    }
}

/// The command that pausing issues for a torrent, described by its name.
pub open spec fn pause_command(torrent: TorrentSnapshot) -> CommandModel {
    CommandModel {
        action: pause_action(torrent.status, torrent.id),
        description: torrent.torrent_name@,
    }
}

/// Builds the command that toggles `torrent` between stopped and running.
pub fn toggle_pause(torrent: &TorrentSnapshot) -> (command: Command)
    ensures
        command@ == pause_command(*torrent),
        torrent.status == TorrentStatus::Stopped ==> command@.action == TorrentActionModel::Start(
            seq![torrent.id],
        ),
        torrent.status != TorrentStatus::Stopped ==> command@.action == TorrentActionModel::Stop(
            seq![torrent.id],
        ),
{
    let mut ids: Vec<i64> = Vec::new();
    ids.push(torrent.id);
    proof {
        assert(ids@ =~= seq![torrent.id]);
    }
    let action = match torrent.status {
        TorrentStatus::Stopped => TorrentAction::Start(ids),
        _ => TorrentAction::Stop(ids),
    };
    Command { action, description: torrent.torrent_name.clone() }
}

} // verus!
