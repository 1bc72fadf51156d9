//! The main window: the dispatcher that routes every intent and every
//! answer of the daemon to the one component it concerns.
//!
//! An intent goes to the top overlay if one is open and to the base view
//! otherwise; it is never handed further down in the same cycle. A raised
//! error becomes an overlay above whatever is open, so it is dismissed
//! first and the overlay beneath it resumes. Commands are not performed
//! here: they are registered as pending tasks and handed to the caller,
//! who reports the daemon's answer back as an update.

use crate::action::{key_intent, Action};
use crate::input::Key;
use crate::add_magnet::{lemma_typing_into_wizard, AddMagnetModel, Stage};
use crate::command::{
    pause_action, Command, CommandModel, TaskKind, TorrentAction, TorrentActionModel,
};
use crate::outcome::{Outcome, OutcomeModel};
use crate::overlay::{
    deliver, lemma_only_top_receives_input, stack_wf, Overlay, OverlayModel, OverlayStack,
};
use crate::popups::{ErrorPopup, ErrorPopupModel, HelpPopup};
use crate::selection::lemma_moves_keep_cursor_valid;
use crate::status_task::{
    outcome_state, registered, registry_wf, resolvable, resolved, StatusTaskModel, TaskRegistry,
    TaskStateModel,
};
use crate::tabs::{tab_after, CurrentTab, TabComponent};
use crate::torrent::{RpcError, SessionStats, TorrentSnapshot, TorrentStatus};
use crate::torrents_tab::{TabModel, TabOutcome, TabOutcomeModel, TorrentsTab};
use vstd::prelude::*;

verus! {

/// A command for the caller to perform, with the task that tracks it.
#[derive(Clone, Debug, PartialEq, Eq)]
pub struct IssuedCommand {
    pub task: usize,
    pub action: TorrentAction,
}

/// An issued command over plain sequences.
pub struct IssuedModel {
    pub task: nat,
    pub action: TorrentActionModel,
}

impl View for IssuedCommand {
    type V = IssuedModel;

    open spec fn view(&self) -> IssuedModel {
        IssuedModel { task: self.task as nat, action: self.action@ }
    }
}

/// What the caller is to do after an intent was dispatched.
#[derive(Clone, Debug, PartialEq, Eq)]
pub struct Dispatch {
    /// Paint the window again.
    pub render: bool,
    /// Leave the program.
    pub quit: bool,
    /// Perform this command, and report the answer for its task.
    pub command: Option<IssuedCommand>,
}

/// What the caller is to do, over plain sequences.
pub struct DispatchModel {
    pub render: bool,
    pub quit: bool,
    pub command: Option<IssuedModel>,
}

impl DispatchModel {
    /// Nothing to do.
    pub open spec fn idle() -> DispatchModel {
        DispatchModel { render: false, quit: false, command: None }
    }

    /// Paint again.
    pub open spec fn render() -> DispatchModel {
        DispatchModel { render: true, quit: false, command: None }
    }

    /// Leave.
    pub open spec fn quit() -> DispatchModel {
        DispatchModel { render: false, quit: true, command: None }
    }
}

impl View for Dispatch {
    type V = DispatchModel;

    open spec fn view(&self) -> DispatchModel {
        DispatchModel {
            render: self.render,
            quit: self.quit,
            command: match self.command {
                None => None,
                Some(issued) => Some(issued@),
            },
        }
    }
}

impl Dispatch {
    fn idle() -> (d: Dispatch)
        ensures
            d@ == DispatchModel::idle(),
    {
        Dispatch { render: false, quit: false, command: None }
    }

    fn render() -> (d: Dispatch)
        ensures
            d@ == DispatchModel::render(),
    {
        Dispatch { render: true, quit: false, command: None }
    }

    fn quit() -> (d: Dispatch)
        ensures
            d@ == DispatchModel::quit(),
    {
        Dispatch { render: false, quit: true, command: None }
    }
}

/// What the background work reports: the result of a poll, or the
/// daemon's answer to an issued command.
#[derive(Debug, PartialEq, Eq)]
pub enum Update {
    /// The torrent poll ended.
    Torrents(Result<Vec<TorrentSnapshot>, RpcError>),
    /// The statistics poll ended.
    Stats(Result<SessionStats, RpcError>),
    /// The daemon answered the command that the task of this id tracks.
    Resolved(usize, Result<(), RpcError>),
}

/// Something that happens to the window.
pub enum WindowEvent {
    Intent(Action),
    Report(Update),
}

/// What the window holds.
pub struct WindowModel {
    /// The tab shown.
    pub tab: CurrentTab,
    /// The base view.
    pub torrents: TabModel,
    /// The open overlays, bottom first.
    pub overlays: Seq<OverlayModel>,
    /// The issued commands, oldest first.
    pub tasks: Seq<StatusTaskModel>,
}

impl WindowModel {
    /// The cursor is valid over the rows shown, every overlay is valid and
    /// every task has its position as its id.
    pub open spec fn wf(self) -> bool {
        &&& self.torrents.wf()
        &&& stack_wf(self.overlays)
        &&& registry_wf(self.tasks)
    }

    /// The window as it starts: the torrents tab, empty, with nothing open
    /// and nothing issued.
    pub open spec fn opened(auto_hide: bool, download_dir: Seq<char>) -> WindowModel {
        WindowModel {
            tab: CurrentTab::Torrents,
            torrents: TabModel::opened(auto_hide, download_dir),
            overlays: Seq::empty(),
            tasks: Seq::empty(),
        }
    }

    /// Whether key presses are text for an input bar on top of the stack.
    pub open spec fn is_typing(self) -> bool {
        self.overlays.len() > 0 && self.overlays.last().takes_text()
    }

    /// Issuing a command registers it as a pending task and hands it to
    /// the caller under that task's id.
    pub open spec fn issue(self, command: CommandModel) -> (WindowModel, DispatchModel) {
        (
            WindowModel {
                tasks: registered(self.tasks, command.action.kind(), command.description),
                ..self
            },
            DispatchModel {
                render: true,
                quit: false,
                command: Some(IssuedModel { task: self.tasks.len(), action: command.action }),
            },
        )
    }

    /// Puts an overlay on top and asks for painting.
    pub open spec fn open(self, overlay: OverlayModel) -> (WindowModel, DispatchModel) {
        (WindowModel { overlays: self.overlays.push(overlay), ..self }, DispatchModel::render())
    }

    /// Acts on the report of the overlay that handled an intent.
    pub open spec fn apply_outcome(self, outcome: OutcomeModel) -> (WindowModel, DispatchModel) {
        match outcome {
            OutcomeModel::Issue(command) => self.issue(command),
            OutcomeModel::Filter(pattern) => (
                WindowModel { torrents: self.torrents.set_filter(pattern), ..self },
                DispatchModel::render(),
            ),
            OutcomeModel::Unfilter => (
                WindowModel { torrents: self.torrents.set_filter(None), ..self },
                DispatchModel::render(),
            ),
            OutcomeModel::Render | OutcomeModel::Quit => (self, DispatchModel::render()),
            OutcomeModel::Nothing | OutcomeModel::Rejected => (self, DispatchModel::idle()),
        }
    }

    /// An intent while no overlay is open.
    pub open spec fn dispatch_base(self, action: Action) -> (WindowModel, DispatchModel) {
        match action {
            Action::Quit => (self, DispatchModel::quit()),
            Action::ShowHelp => self.open(OverlayModel::Help(HelpPopup {  })),
            Action::ChangeTab(_) => (
                WindowModel { tab: tab_after(self.tab, action), ..self },
                DispatchModel::idle(),
            ),
            _ => {
                let window = WindowModel { torrents: self.torrents.handle(action).0, ..self };
                match self.torrents.handle(action).1 {
                    TabOutcomeModel::Nothing => (window, DispatchModel::idle()),
                    TabOutcomeModel::Render => (window, DispatchModel::render()),
                    TabOutcomeModel::Open(overlay) => window.open(overlay),
                    TabOutcomeModel::Issue(command) => window.issue(command),
                }
            },
        }
    }

    /// The window and what the caller is to do after an intent.
    pub open spec fn dispatch(self, action: Action) -> (WindowModel, DispatchModel) {
        match action {
            Action::Error(popup) => (
                WindowModel { overlays: self.overlays.push(OverlayModel::Error(popup@)), ..self },
                DispatchModel::idle(),
            ),
            _ => if self.overlays.len() > 0 {
                WindowModel { overlays: deliver(self.overlays, action).0, ..self }.apply_outcome(
                    deliver(self.overlays, action).1,
                )
            } else {
                self.dispatch_base(action)
            },
        }
    }

    /// The popup that tells of a failed command.
    pub open spec fn failure_popup(error: RpcError) -> ErrorPopupModel {
        ErrorPopupModel { title: "Error"@, message: error.message@ }
    }

    /// The window after a report of the background work, and whether it is
    /// to be painted again. A failed poll is dropped: the next tick tries
    /// again. A failed command is recorded in its task and, if the task was
    /// still pending, told in an error popup on top of whatever is open.
    pub open spec fn update(self, update: Update) -> (WindowModel, bool) {
        match update {
            Update::Torrents(Ok(rows)) => (
                WindowModel { torrents: self.torrents.set_rows(rows@), ..self },
                true,
            ),
            Update::Torrents(Err(_)) => (self, false),
            Update::Stats(Ok(stats)) => (
                WindowModel { torrents: self.torrents.set_stats(stats), ..self },
                true,
            ),
            Update::Stats(Err(_)) => (self, false),
            Update::Resolved(id, outcome) => (
                WindowModel {
                    tasks: resolved(self.tasks, id as nat, outcome_state(outcome)),
                    overlays: match outcome {
                        Err(error) if resolvable(self.tasks, id as nat) => self.overlays.push(
                            OverlayModel::Error(Self::failure_popup(error)),
                        ),
                        _ => self.overlays,
                    },
                    ..self
                },
                resolvable(self.tasks, id as nat),
            ),
        }
    }

    /// The window after the characters of `text` were typed one by one.
    pub open spec fn typed(self, text: Seq<char>) -> WindowModel
        decreases text.len(),
    {
        if text.len() == 0 {
            self
        } else {
            self.typed(text.drop_last()).dispatch(Action::Input(Key::Char(text.last()))).0
        }
    }

    /// Whether typing `text` one character at a time issues no command.
    pub open spec fn typing_issues_nothing(self, text: Seq<char>) -> bool {
        forall|n: int|
            0 <= n < text.len() ==> (#[trigger] self.typed(text.take(n)).dispatch(
                Action::Input(Key::Char(text[n])),
            )).1.command is None
    }

    /// The window after one event.
    pub open spec fn step(self, event: WindowEvent) -> WindowModel {
        match event {
            WindowEvent::Intent(action) => self.dispatch(action).0,
            WindowEvent::Report(update) => self.update(update).0,
        }
    }

    /// The window after a sequence of events, first to last.
    pub open spec fn run(self, events: Seq<WindowEvent>) -> WindowModel
        decreases events.len(),
    {
        if events.len() == 0 {
            self
        } else {
            self.run(events.drop_last()).step(events.last())
        }
    }
}

/// One event keeps the window valid.
pub proof fn lemma_step_keeps_window_valid(w: WindowModel, event: WindowEvent)
    requires
        w.wf(),
    ensures
        w.step(event).wf(),
{
    match event {
        WindowEvent::Intent(action) => {
            lemma_moves_keep_cursor_valid(w.torrents.table.selection);
            match action {
                Action::Error(_) => {},
                _ => {
                    if w.overlays.len() > 0 {
                        lemma_only_top_receives_input(w.overlays, action);
                    }
                },
            }
        },
        WindowEvent::Report(update) => {},
    }
}

/// Whatever intents and reports arrive, in whatever order, the window
/// stays valid; in particular the cursor is none while no row is shown and
/// the index of a shown row otherwise.
pub proof fn lemma_window_always_valid(w: WindowModel, events: Seq<WindowEvent>)
    requires
        w.wf(),
    ensures
        w.run(events).wf(),
        w.run(events).torrents.table.visible().len() == 0 <==> w.run(
            events,
        ).torrents.table.selection.cursor is None,
        w.run(events).torrents.table.selection.cursor matches Some(i) ==> i < w.run(
            events,
        ).torrents.table.visible().len(),
    decreases events.len(),
{
    if events.len() > 0 {
        lemma_window_always_valid(w, events.drop_last());
        lemma_step_keeps_window_valid(w.run(events.drop_last()), events.last());
    }
}

/// A raised error goes on top of whatever is open and asks nothing of the
/// caller, and dismissing it gives
/// the window back exactly as it was: the overlay that was on top before is
/// on top again, and the base view has seen nothing.
pub proof fn lemma_error_is_dismissed_first(w: WindowModel, popup: ErrorPopup)
    ensures
        w.dispatch(Action::Error(popup)).0 == (WindowModel {
            overlays: w.overlays.push(OverlayModel::Error(popup@)),
            ..w
        }),
        w.dispatch(Action::Error(popup)).1 == DispatchModel::idle(),
        w.dispatch(Action::Error(popup)).0.dispatch(Action::Confirm) == (w, DispatchModel::render()),
        w.dispatch(Action::Error(popup)).0.dispatch(Action::Quit) == (w, DispatchModel::render()),
{
    let raised = w.dispatch(Action::Error(popup)).0;
    assert(raised.overlays.drop_last() =~= w.overlays);
    assert(raised.overlays.update(raised.overlays.len() - 1, raised.overlays.last()).drop_last()
        =~= w.overlays);
}

/// While an error is on top, no intent other than a dismissal changes
/// anything, and none reaches the overlays beneath or the base view.
pub proof fn lemma_error_owns_input(w: WindowModel, popup: ErrorPopup, action: Action)
    requires
        !(action is Error),
        !(action is Confirm),
        !(action is Quit),
    ensures
        w.dispatch(Action::Error(popup)).0.dispatch(action) == (
            w.dispatch(Action::Error(popup)).0,
            DispatchModel::idle(),
        ),
{
    let raised = w.dispatch(Action::Error(popup)).0;
    assert(raised.overlays.update(raised.overlays.len() - 1, raised.overlays.last())
        =~= raised.overlays);
}

/// Typing into the add-torrent wizard on top of the stack, with the cursor
/// at the end of the input it waits for, adds the text to that input and
/// does nothing else.
pub proof fn lemma_typing_fills_wizard(w: WindowModel, bar: AddMagnetModel, text: Seq<char>)
    requires
        w.overlays.len() > 0,
        w.overlays.last() == OverlayModel::AddMagnet(bar),
        bar.stage != Stage::Completed,
        bar.cursor_at_end(),
    ensures
        w.typed(text) == (WindowModel {
            overlays: w.overlays.drop_last().push(OverlayModel::AddMagnet(bar.appended(text))),
            ..w
        }),
        w.typing_issues_nothing(text),
    decreases text.len(),
{
    let below = w.overlays.drop_last();
    if text.len() == 0 {
        lemma_typing_into_wizard(bar, text, 'a');
        assert(text =~= Seq::<char>::empty());
        assert(below.push(OverlayModel::AddMagnet(bar)) =~= w.overlays);
    } else {
        let front = text.drop_last();
        let c = text.last();
        lemma_typing_fills_wizard(w, bar, front);
        lemma_typing_into_wizard(bar, front, c);
        assert(front.push(c) =~= text);
        let before = w.typed(front);
        let stack = before.overlays;
        assert(stack.last() == OverlayModel::AddMagnet(bar.appended(front)));
        assert(stack.update(stack.len() - 1, OverlayModel::AddMagnet(bar.appended(text)))
            =~= below.push(OverlayModel::AddMagnet(bar.appended(text))));
        assert forall|n: int| 0 <= n < text.len() implies (#[trigger] w.typed(text.take(n)).dispatch(
            Action::Input(Key::Char(text[n])),
        )).1.command is None by {
            if n < front.len() {
                assert(front.take(n) =~= text.take(n));
                assert(front[n] == text[n]);
            } else {
                assert(text.take(n) =~= front);
            }
        }
    }
}

/// The add-torrent wizard from end to end. Opened on the base view, with
/// `source` typed, confirmed, `more` typed behind the default directory
/// and confirmed again, it issues exactly one command: add `source` into
/// the default directory followed by `more`. The command is tracked by one
/// new pending task described by `source`, and the wizard is gone.
pub proof fn lemma_add_wizard_round_trip(w: WindowModel, source: Seq<char>, more: Seq<char>)
    requires
        w.overlays.len() == 0,
        source.len() > 0,
    ensures
        ({
            let opened = w.dispatch(Action::AddMagnet);
            let named = opened.0.typed(source);
            let advanced = named.dispatch(Action::Confirm);
            let placed = advanced.0.typed(more);
            let done = placed.dispatch(Action::Confirm);
            &&& opened.1.command is None
            &&& opened.0.typing_issues_nothing(source)
            &&& advanced.1.command is None
            &&& advanced.0.typing_issues_nothing(more)
            &&& done.1.command == Some(
                IssuedModel {
                    task: w.tasks.len(),
                    action: TorrentActionModel::Add(source, Some(w.torrents.download_dir + more)),
                },
            )
            &&& done.0 == (WindowModel {
                tasks: registered(w.tasks, TaskKind::Add, source),
                ..w
            })
        }),
{
    let bar = AddMagnetModel::opened(w.torrents.download_dir);
    let opened = w.dispatch(Action::AddMagnet).0;
    assert(opened.overlays.last() == OverlayModel::AddMagnet(bar));
    assert(opened.overlays.drop_last() =~= w.overlays);
    lemma_typing_fills_wizard(opened, bar, source);
    let named = opened.typed(source);
    let bar_named = bar.appended(source);
    assert(bar_named.magnet.text =~= source);
    assert(named.overlays.last() == OverlayModel::AddMagnet(bar_named));
    let bar_advanced = AddMagnetModel { stage: Stage::AskLocation, ..bar_named };
    let advanced = named.dispatch(Action::Confirm).0;
    assert(named.overlays.update(named.overlays.len() - 1, OverlayModel::AddMagnet(bar_advanced))
        =~= w.overlays.push(OverlayModel::AddMagnet(bar_advanced)));
    assert(advanced.overlays.last() == OverlayModel::AddMagnet(bar_advanced));
    assert(advanced.overlays.drop_last() =~= w.overlays);
    lemma_typing_fills_wizard(advanced, bar_advanced, more);
    let placed = advanced.typed(more);
    let bar_placed = bar_advanced.appended(more);
    assert(placed.overlays.last() == OverlayModel::AddMagnet(bar_placed));
    let done = placed.dispatch(Action::Confirm);
    assert(placed.overlays.update(
        placed.overlays.len() - 1,
        placed.overlays.last().handle(Action::Confirm).0,
    ).drop_last() =~= w.overlays);
}

/// Pausing on the base view toggles the torrent under the cursor: a stopped
/// one is started, any other is stopped, and the command is tracked by a
/// new pending task. With no row under the cursor, pausing does nothing.
pub proof fn lemma_pause_toggles(w: WindowModel)
    requires
        w.overlays.len() == 0,
    ensures
        w.torrents.table.current_item() matches Some(torrent) ==> {
            &&& w.dispatch(Action::Pause).1.command == Some(
                IssuedModel { task: w.tasks.len(), action: pause_action(torrent.status, torrent.id) },
            )
            &&& torrent.status == TorrentStatus::Stopped ==> w.dispatch(
                Action::Pause,
            ).1.command->0.action == TorrentActionModel::Start(seq![torrent.id])
            &&& torrent.status != TorrentStatus::Stopped ==> w.dispatch(
                Action::Pause,
            ).1.command->0.action == TorrentActionModel::Stop(seq![torrent.id])
            &&& w.dispatch(Action::Pause).0.tasks == registered(
                w.tasks,
                pause_action(torrent.status, torrent.id).kind(),
                torrent.torrent_name@,
            )
        },
        w.torrents.table.current_item() is None ==> w.dispatch(Action::Pause) == (
            w,
            DispatchModel::idle(),
        ),
{
}

/// A failed poll leaves everything as it was, the snapshot list and the
/// statistics included; it opens no overlay and asks for no painting.
pub proof fn lemma_failed_poll_changes_nothing(w: WindowModel, error: RpcError)
    ensures
        w.update(Update::Torrents(Err(error))) == (w, false),
        w.update(Update::Stats(Err(error))) == (w, false),
{
}

/// A failed command is never passed over in silence: the answer puts its
/// pending task into the failed state with the daemon's reason, and an error
/// popup with that reason goes on top of whatever is open. A successful one
/// puts the task into the success state and opens nothing.
pub proof fn lemma_command_outcome_is_told(w: WindowModel, id: usize, error: RpcError)
    requires
        resolvable(w.tasks, id as nat),
    ensures
        w.update(Update::Resolved(id, Err(error))).0.tasks[id as int].state
            == TaskStateModel::Failed(error.message@),
        w.update(Update::Resolved(id, Err(error))).0.overlays == w.overlays.push(
            OverlayModel::Error(ErrorPopupModel { title: "Error"@, message: error.message@ }),
        ),
        w.update(Update::Resolved(id, Err(error))).1,
        w.update(Update::Resolved(id, Ok(()))).0.tasks[id as int].state == TaskStateModel::Success,
        w.update(Update::Resolved(id, Ok(()))).0.overlays == w.overlays,
        w.update(Update::Resolved(id, Ok(()))).1,
{
}

/// A successful poll replaces the snapshot list as a whole and touches
/// neither the overlays nor the tasks.
pub proof fn lemma_poll_replaces_list(w: WindowModel, rows: Vec<TorrentSnapshot>)
    ensures
        w.update(Update::Torrents(Ok(rows))).0.torrents.table.rows == rows@,
        w.update(Update::Torrents(Ok(rows))).0.overlays == w.overlays,
        w.update(Update::Torrents(Ok(rows))).0.tasks == w.tasks,
        w.update(Update::Torrents(Ok(rows))).1,
{
}

/// The main window.
pub struct MainWindow {
    tabs: TabComponent,
    torrents_tab: TorrentsTab,
    overlays: OverlayStack,
    tasks: TaskRegistry,
}

impl View for MainWindow {
    type V = WindowModel;

    closed spec fn view(&self) -> WindowModel {
        WindowModel {
            tab: self.tabs.current_tab,
            torrents: self.torrents_tab@,
            overlays: self.overlays@,
            tasks: self.tasks@,
        }
    }
}

impl MainWindow {
    /// The parts of the window are consistent.
    pub closed spec fn wf(&self) -> bool {
        &&& self.torrents_tab.wf()
        &&& self@.wf()
    }

    /// A valid window has a valid view.
    pub proof fn lemma_wf_has_valid_view(&self)
        requires
            self.wf(),
        ensures
            self@.wf(),
    {
    }

    /// The window before anything has happened. `auto_hide` hides unused
    /// columns; `download_dir` is the directory that the add-torrent wizard
    /// starts from.
    pub fn new(auto_hide: bool, download_dir: String) -> (window: MainWindow)
        ensures
            window.wf(),
            window@ == WindowModel::opened(auto_hide, download_dir@),
    {
        MainWindow {
            tabs: TabComponent::new(),
            torrents_tab: TorrentsTab::new(auto_hide, download_dir),
            overlays: OverlayStack::new(),
            tasks: TaskRegistry::new(),
        }
    }

    fn issue(&mut self, command: Command) -> (dispatch: Dispatch)
        requires
            old(self).wf(),
        ensures
            final(self).wf(),
            (final(self)@, dispatch@) == old(self)@.issue(command@),
    {
        let kind = command.action.kind();
        let task = self.tasks.register(kind, command.description);
        Dispatch {
            render: true,
            quit: false,
            command: Some(IssuedCommand { task, action: command.action }),
        }
    }

    fn open(&mut self, overlay: Overlay) -> (dispatch: Dispatch)
        requires
            old(self).wf(),
            overlay@.wf(),
        ensures
            final(self).wf(),
            (final(self)@, dispatch@) == old(self)@.open(overlay@),
    {
        self.overlays.push(overlay);
        Dispatch::render()
    }

    fn apply_outcome(&mut self, outcome: Outcome) -> (dispatch: Dispatch)
        requires
            old(self).wf(),
        ensures
            final(self).wf(),
            (final(self)@, dispatch@) == old(self)@.apply_outcome(outcome@),
    {
        match outcome {
            Outcome::Issue(command) => self.issue(command),
            Outcome::Filter(pattern) => {
                self.torrents_tab.set_filter(pattern);
                Dispatch::render()
            },
            Outcome::Unfilter => {
                self.torrents_tab.set_filter(None);
                Dispatch::render()
            },
            Outcome::Render | Outcome::Quit => Dispatch::render(),
            Outcome::Nothing | Outcome::Rejected => Dispatch::idle(),
        }
    }

    fn handle_base(&mut self, action: Action) -> (dispatch: Dispatch)
        requires
            old(self).wf(),
            !(action is Error),
        ensures
            final(self).wf(),
            (final(self)@, dispatch@) == old(self)@.dispatch_base(action),
    {
        match action {
            Action::Quit => Dispatch::quit(),
            Action::ShowHelp => self.open(Overlay::Help(HelpPopup::new())),
            Action::ChangeTab(_) => {
                let _ = self.tabs.handle_actions(&action);
                Dispatch::idle()
            },
            other => {
                match self.torrents_tab.handle_actions(&other) {
                    TabOutcome::Nothing => Dispatch::idle(),
                    TabOutcome::Render => Dispatch::render(),
                    TabOutcome::Open(overlay) => self.open(overlay),
                    TabOutcome::Issue(command) => self.issue(command),
                }
            },
        }
    }

    /// Dispatches an intent: a raised error is put on top, and nothing is
    /// asked of the caller for it; any other
    /// intent goes to the top overlay, or to the base view if none is open.
    /// Returns what the caller is to do.
    #[must_use]
    pub fn handle_events(&mut self, action: Action) -> (dispatch: Dispatch)
        requires
            old(self).wf(),
        ensures
            final(self).wf(),
            (final(self)@, dispatch@) == old(self)@.dispatch(action),
    {
        match action {
            Action::Error(popup) => {
                self.overlays.push(Overlay::Error(popup));
                Dispatch::idle()
            },
            other => {
                if !self.overlays.is_empty() {
                    let outcome = self.overlays.handle_top(&other);
                    let _ = self.overlays.pop_top_if_quit(&outcome);
                    self.apply_outcome(outcome)
                } else {
                    self.handle_base(other)
                }
            },
        }
    }

    /// Whether key presses are text for an input bar on top of the stack.
    pub fn is_typing(&self) -> (typing: bool)
        ensures
            typing == self@.is_typing(),
    {
        match self.overlays.top() {
            None => false,
            Some(overlay) => overlay.takes_text(),
        }
    }

    /// Maps a key press to its intent, as text while an input bar is on
    /// top, and dispatches the intent. A key without a binding does nothing.
    #[must_use]
    pub fn handle_key(&mut self, key: Key) -> (dispatch: Dispatch)
        requires
            old(self).wf(),
        ensures
            final(self).wf(),
            (final(self)@, dispatch@) == match key_intent(key, old(self)@.is_typing()) {
                Some(action) => old(self)@.dispatch(action),
                None => (old(self)@, DispatchModel::idle()),
            },
    {
        match Action::from_key(key, self.is_typing()) {
            Some(action) => self.handle_events(action),
            None => Dispatch::idle(),
        }
    }

    /// Takes a report of the background work and says whether the window
    /// is to be painted again.
    #[must_use]
    pub fn handle_update(&mut self, update: Update) -> (render: bool)
        requires
            old(self).wf(),
        ensures
            final(self).wf(),
            (final(self)@, render) == old(self)@.update(update),
            update is Torrents && update->Torrents_0 is Err ==> final(self)@ == old(self)@ && !render,
            update is Stats && update->Stats_0 is Err ==> final(self)@ == old(self)@ && !render,
    {
        match update {
            Update::Torrents(Ok(rows)) => {
                self.torrents_tab.set_new_rows(rows);
                true
            },
            Update::Torrents(Err(_)) => false,
            Update::Stats(Ok(stats)) => {
                self.torrents_tab.set_stats(stats);
                true
            },
            Update::Stats(Err(_)) => false,
            Update::Resolved(id, outcome) => {
                let popup = match &outcome {
                    Ok(_) => None,
                    Err(error) => Some(ErrorPopup::new("Error", error.message.clone())),
                };
                let updated = self.tasks.resolve(id, outcome);
                match popup {
                    Some(popup) => {
                        if updated {
                            self.overlays.push(Overlay::Error(popup));
                        }
                    },
                    None => {},
                }
                updated
            },
        }
    }

    /// The tab bar.
    pub fn tabs(&self) -> (tabs: &TabComponent)
        ensures
            tabs.current_tab == self@.tab,
    {
        &self.tabs
    }

    /// The base view.
    pub fn torrents_tab(&self) -> (tab: &TorrentsTab)
        requires
            self.wf(),
        ensures
            tab.wf(),
            tab@ == self@.torrents,
    {
        &self.torrents_tab
    }

    /// The open overlays.
    pub fn overlays(&self) -> (overlays: &OverlayStack)
        ensures
            overlays@ == self@.overlays,
    {
        &self.overlays
    }

    /// The issued commands.
    pub fn tasks(&self) -> (tasks: &TaskRegistry)
        ensures
            tasks@ == self@.tasks,
    {
        &self.tasks
    }
}

} // verus!
