//! The wizard that adds a torrent.
//!
//! It asks for the source, a magnet link or a path, and then for the
//! directory to download into, which starts out as the daemon's default.
//! Confirming the source moves on to the directory and keeps what was typed;
//! confirming the directory issues the command; cancelling at either stage
//! issues nothing. The wizard never waits for the daemon: what became of the
//! command is told by the task registry.

use crate::action::{action_key, Action};
use crate::command::{Command, CommandModel, TorrentAction, TorrentActionModel};
use crate::input::{lemma_typing_appends, InputManager, InputModel, Key};
use crate::outcome::{Outcome, OutcomeModel};
use vstd::prelude::*;

verus! {

/// Where the wizard stands.
#[derive(Clone, Copy, Debug, PartialEq, Eq, Structural)]
pub enum Stage {
    /// Waiting for the source.
    AskMagnet,
    /// Waiting for the directory.
    AskLocation,
    /// Confirmed or cancelled; nothing more will happen.
    Completed,
}

/// The prompt before the source.
pub open spec fn magnet_prompt() -> Seq<char> {
    "Add (Magnet URL / Torrent path): "@
}

/// The prompt before the directory.
pub open spec fn location_prompt() -> Seq<char> {
    "Directory: "@
}

/// What the wizard holds.
pub struct AddMagnetModel {
    pub magnet: InputModel,
    pub location: InputModel,
    pub stage: Stage,
}

impl AddMagnetModel {
    /// Both inputs are valid.
    pub open spec fn wf(self) -> bool {
        self.magnet.wf() && self.location.wf()
    }

    /// The wizard as it opens: no source yet, the default directory filled
    /// in, waiting for the source.
    pub open spec fn opened(download_dir: Seq<char>) -> AddMagnetModel {
        AddMagnetModel {
            magnet: InputModel::with_value(magnet_prompt(), Seq::empty()),
            location: InputModel::with_value(location_prompt(), download_dir),
            stage: Stage::AskMagnet,
        }
    }

    /// The command that confirming the directory issues: add the source
    /// into the directory, described by the source.
    pub open spec fn command(self) -> CommandModel {
        CommandModel {
            action: TorrentActionModel::Add(self.magnet.text, Some(self.location.text)),
            description: self.magnet.text,
        }
    }

    /// A key while the wizard waits for the source.
    pub open spec fn handle_magnet_input(self, key: Key) -> (AddMagnetModel, OutcomeModel) {
        match key {
            Key::Enter => if self.magnet.text.len() == 0 {
                (self, OutcomeModel::Rejected)
            } else {
                (AddMagnetModel { stage: Stage::AskLocation, ..self }, OutcomeModel::Render)
            },
            Key::Esc => (AddMagnetModel { stage: Stage::Completed, ..self }, OutcomeModel::Quit),
            _ => (
                AddMagnetModel { magnet: self.magnet.handle_key(key), ..self },
                if self.magnet.responds_to(key) {
                    OutcomeModel::Render
                } else {
                    OutcomeModel::Nothing
                },
            ),
        }
    }

    /// A key while the wizard waits for the directory.
    pub open spec fn handle_location_input(self, key: Key) -> (AddMagnetModel, OutcomeModel) {
        match key {
            Key::Enter => (
                AddMagnetModel { stage: Stage::Completed, ..self },
                OutcomeModel::Issue(self.command()),
            ),
            Key::Esc => (AddMagnetModel { stage: Stage::Completed, ..self }, OutcomeModel::Quit),
            _ => (
                AddMagnetModel { location: self.location.handle_key(key), ..self },
                if self.location.responds_to(key) {
                    OutcomeModel::Render
                } else {
                    OutcomeModel::Nothing
                },
            ),
        }
    }

    /// A key at whatever stage the wizard is in.
    pub open spec fn handle_input(self, key: Key) -> (AddMagnetModel, OutcomeModel) {
        match self.stage {
            Stage::AskMagnet => self.handle_magnet_input(key),
            Stage::AskLocation => self.handle_location_input(key),
            Stage::Completed => (self, OutcomeModel::Nothing),
        }
    }

    /// The wizard and its report after an intent. Only keys, confirming and
    /// cancelling reach the wizard.
    pub open spec fn handle(self, action: Action) -> (AddMagnetModel, OutcomeModel) {
        match action_key(action) {
            Some(key) => self.handle_input(key),
            None => (self, OutcomeModel::Nothing),
        }
    }
}

impl AddMagnetModel {
    /// The wizard with `text` added at the end of the input it is waiting
    /// for.
    pub open spec fn appended(self, text: Seq<char>) -> AddMagnetModel {
        match self.stage {
            Stage::AskMagnet => AddMagnetModel { magnet: self.magnet.appended(text), ..self },
            Stage::AskLocation => AddMagnetModel { location: self.location.appended(text), ..self },
            Stage::Completed => self,
        }
    }

    /// The cursor of the input that the wizard is waiting for is behind its
    /// text.
    pub open spec fn cursor_at_end(self) -> bool {
        match self.stage {
            Stage::AskMagnet => self.magnet.cursor == self.magnet.text.len(),
            Stage::AskLocation => self.location.cursor == self.location.text.len(),
            Stage::Completed => true,
        }
    }
}

/// Typing a character into a wizard that waits for input, with the cursor
/// at the end, adds the character to that input and asks for painting.
pub proof fn lemma_typing_into_wizard(w: AddMagnetModel, text: Seq<char>, c: char)
    requires
        w.stage != Stage::Completed,
        w.cursor_at_end(),
    ensures
        w.appended(text).handle(Action::Input(Key::Char(c))) == (
            w.appended(text.push(c)),
            OutcomeModel::Render,
        ),
        w.appended(Seq::empty()) == w,
{
    match w.stage {
        Stage::AskMagnet => lemma_typing_appends(w.magnet, text, c),
        _ => lemma_typing_appends(w.location, text, c),
    }
}

/// The wizard issues a command only when the directory is confirmed, is
/// completed from then on, and once completed does nothing at all. So it
/// issues at most one command, and none after a cancel.
pub proof fn lemma_wizard_issues_once(w: AddMagnetModel, action: Action)
    requires
        w.wf(),
    ensures
        w.handle(action).0.wf(),
        w.handle(action).1 is Issue <==> w.stage == Stage::AskLocation && action_key(action)
            == Some(Key::Enter),
        w.handle(action).1 is Issue ==> w.handle(action).1 == OutcomeModel::Issue(w.command()),
        w.handle(action).1.closes() ==> w.handle(action).0.stage == Stage::Completed,
        w.stage == Stage::Completed ==> w.handle(action) == (w, OutcomeModel::Nothing),
        action_key(action) == Some(Key::Esc) && w.stage != Stage::Completed ==> w.handle(action).1
            == OutcomeModel::Quit,
{
}

/// Confirming a source that is not empty keeps both texts and moves on to
/// the directory; confirming an empty source is rejected and changes
/// nothing.
pub proof fn lemma_confirming_source(w: AddMagnetModel)
    requires
        w.stage == Stage::AskMagnet,
    ensures
        w.magnet.text.len() > 0 ==> w.handle(Action::Confirm) == (
            AddMagnetModel { stage: Stage::AskLocation, ..w },
            OutcomeModel::Render,
        ),
        w.magnet.text.len() == 0 ==> w.handle(Action::Confirm) == (w, OutcomeModel::Rejected),
{
}

/// The add-torrent wizard.
#[derive(Clone, Debug)]
pub struct AddMagnetBar {
    input_magnet_mgr: InputManager,
    input_location_mgr: InputManager,
    stage: Stage,
}

impl View for AddMagnetBar {
    type V = AddMagnetModel;

    closed spec fn view(&self) -> AddMagnetModel {
        AddMagnetModel {
            magnet: self.input_magnet_mgr@,
            location: self.input_location_mgr@,
            stage: self.stage,
        }
    }
}

impl AddMagnetBar {
    /// Opens the wizard with `download_dir` as the directory to start from.
    pub fn new(download_dir: String) -> (bar: AddMagnetBar)
        ensures
            bar@ == AddMagnetModel::opened(download_dir@),
            bar@.wf(),
    {
        AddMagnetBar {
            input_magnet_mgr: InputManager::new("Add (Magnet URL / Torrent path): ".to_owned()),
            input_location_mgr: InputManager::new_with_value(
                "Directory: ".to_owned(),
                download_dir,
            ),
            stage: Stage::AskMagnet,
        }
    }

    fn handle_input(&mut self, input: Key) -> (outcome: Outcome)
        requires
            old(self)@.wf(),
        ensures
            (final(self)@, outcome@) == old(self)@.handle_input(input),
            final(self)@.wf(),
    {
        match self.stage {
            Stage::AskMagnet => self.handle_magnet_input(input),
            Stage::AskLocation => self.handle_location_input(input),
            Stage::Completed => Outcome::Nothing,
        }
    }

    fn handle_magnet_input(&mut self, input: Key) -> (outcome: Outcome)
        requires
            old(self)@.wf(),
        ensures
            (final(self)@, outcome@) == old(self)@.handle_magnet_input(input),
            final(self)@.wf(),
    {
        match input {
            Key::Enter => {
                if self.input_magnet_mgr.is_empty() {
                    Outcome::Rejected
                } else {
                    self.stage = Stage::AskLocation;
                    Outcome::Render
                }
            },
            Key::Esc => {
                self.stage = Stage::Completed;
                Outcome::Quit
            },
            _ => {
                if self.input_magnet_mgr.handle_key(input) {
                    Outcome::Render
                } else {
                    Outcome::Nothing
                }
            },
        }
    }

    fn handle_location_input(&mut self, input: Key) -> (outcome: Outcome)
        requires
            old(self)@.wf(),
        ensures
            (final(self)@, outcome@) == old(self)@.handle_location_input(input),
            final(self)@.wf(),
    {
        match input {
            Key::Enter => {
                let torrent_action = TorrentAction::Add(
                    self.input_magnet_mgr.text(),
                    Some(self.input_location_mgr.text()),
                );
                let command = Command {
                    action: torrent_action,
                    description: self.input_magnet_mgr.text(),
                };
                self.stage = Stage::Completed;
                Outcome::Issue(command)
            },
            Key::Esc => {
                self.stage = Stage::Completed;
                Outcome::Quit
            },
            _ => {
                if self.input_location_mgr.handle_key(input) {
                    Outcome::Render
                } else {
                    Outcome::Nothing
                }
            },
        }
    }

    /// Applies an intent to the wizard and reports what is to be done.
    #[must_use]
    pub fn handle_actions(&mut self, action: &Action) -> (outcome: Outcome)
        requires
            old(self)@.wf(),
        ensures
            (final(self)@, outcome@) == old(self)@.handle(*action),
            final(self)@.wf(),
    {
        match action.key() {
            Some(input) => self.handle_input(input),
            None => Outcome::Nothing,
        }
    }

    /// The stage the wizard is in.
    pub fn stage(&self) -> (stage: Stage)
        ensures
            stage == self@.stage,
    {
        self.stage
    }

    /// The input that is being edited: the source until it is confirmed,
    /// the directory from then on.
    pub fn active_input(&self) -> (input: &InputManager)
        ensures
            input@ == if self@.stage == Stage::AskMagnet {
                self@.magnet
            } else {
                self@.location
            },
    {
        match self.stage {
            Stage::AskMagnet => &self.input_magnet_mgr,
            _ => &self.input_location_mgr,
        }
    }
}

} // verus!
