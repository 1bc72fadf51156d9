use rm_main::action::Action;
use rm_main::add_magnet::Stage;
use rm_main::command::{toggle_pause, TaskKind, TorrentAction};
use rm_main::input::Key;
use rm_main::main_window::{Dispatch, IssuedCommand, MainWindow, Update};
use rm_main::overlay::Overlay;
use rm_main::popups::ErrorPopup;
use rm_main::status_task::{StatusTask, TaskState};
use rm_main::tabs::CurrentTab;
use rm_main::torrent::{RpcError, SessionStats, TorrentSnapshot, TorrentStatus};

const IDLE: Dispatch = Dispatch { render: false, quit: false, command: None };
const RENDER: Dispatch = Dispatch { render: true, quit: false, command: None };

fn torrent(id: i64, name: &str, status: TorrentStatus) -> TorrentSnapshot {
    TorrentSnapshot {
        id,
        torrent_name: name.to_string(),
        size_when_done: "700 MB".to_string(),
        progress: String::new(),
        eta_secs: String::new(),
        download_speed: String::new(),
        upload_speed: String::new(),
        status,
    }
}

fn stats() -> SessionStats {
    SessionStats {
        torrent_count: 2,
        active_torrent_count: 1,
        paused_torrent_count: 1,
        download_speed: 2048,
        upload_speed: 64,
    }
}

fn failure(message: &str) -> RpcError {
    RpcError { message: message.to_string() }
}

fn window_with(rows: Vec<TorrentSnapshot>) -> MainWindow {
    let mut window = MainWindow::new(false, "/downloads".to_string());
    assert!(window.handle_update(Update::Torrents(Ok(rows))));
    window
}

fn type_text(window: &mut MainWindow, text: &str) -> Vec<Dispatch> {
    text.chars().map(|c| window.handle_events(Action::Input(Key::Char(c)))).collect()
}

fn shown_names(window: &MainWindow) -> Vec<String> {
    window
        .torrents_tab()
        .table_manager()
        .shown_rows()
        .iter()
        .map(|row| row.torrent_name.clone())
        .collect()
}

#[test]
fn new_window_is_empty() {
    let window = MainWindow::new(true, "/downloads".to_string());
    assert!(window.overlays().is_empty());
    assert_eq!(window.tasks().len(), 0);
    assert_eq!(window.tabs().current_tab, CurrentTab::Torrents);
    assert_eq!(window.torrents_tab().stats(), None);
    assert!(window.torrents_tab().table_manager().rows().is_empty());
    assert_eq!(
        window.torrents_tab().header(),
        &vec!["Name", "Size", "Progress", "ETA", "Download", "Upload"]
    );
}

#[test]
fn error_goes_above_help_and_is_dismissed_first() {
    let mut window = MainWindow::new(false, "/downloads".to_string());
    assert_eq!(window.handle_events(Action::ShowHelp), RENDER);
    assert!(matches!(window.overlays().top(), Some(Overlay::Help(_))));
    let popup = ErrorPopup::new("Connection", "daemon unreachable".to_string());
    // Raising asks for nothing: whoever raises the error asks for painting.
    assert_eq!(window.handle_events(Action::Error(popup.clone())), IDLE);
    assert_eq!(window.overlays().len(), 2);
    assert!(matches!(window.overlays().top(), Some(Overlay::Error(top)) if *top == popup));
    assert!(matches!(window.overlays().get(0), Overlay::Help(_)));
    assert_eq!(window.handle_events(Action::Confirm), RENDER);
    assert_eq!(window.overlays().len(), 1);
    assert!(matches!(window.overlays().top(), Some(Overlay::Help(_))));
    assert_eq!(window.handle_events(Action::Confirm), RENDER);
    assert!(window.overlays().is_empty());
}

#[test]
fn error_on_top_swallows_everything_but_a_dismissal() {
    let mut window = window_with(vec![torrent(1, "a", TorrentStatus::Stopped)]);
    let _ = window.handle_events(Action::Error(ErrorPopup::new("E", "m".to_string())));
    for action in [Action::Down, Action::Pause, Action::Cancel, Action::ShowHelp, Action::AddMagnet] {
        assert_eq!(window.handle_events(action), IDLE);
    }
    assert_eq!(window.overlays().len(), 1);
    assert_eq!(window.tasks().len(), 0);
    assert_eq!(window.handle_events(Action::Quit), RENDER);
    assert!(window.overlays().is_empty());
}

#[test]
fn errors_stack_up_and_come_off_newest_first() {
    let mut window = MainWindow::new(false, String::new());
    let first = ErrorPopup::new("E", "first".to_string());
    let second = ErrorPopup::new("E", "second".to_string());
    assert_eq!(window.handle_events(Action::Error(first.clone())), IDLE);
    assert_eq!(window.handle_events(Action::Error(second.clone())), IDLE);
    assert_eq!(window.overlays().len(), 2);
    assert!(matches!(window.overlays().top(), Some(Overlay::Error(p)) if *p == second));
    assert!(matches!(window.overlays().get(0), Overlay::Error(p) if *p == first));
    assert_eq!(window.handle_events(Action::Confirm), RENDER);
    assert!(matches!(window.overlays().top(), Some(Overlay::Error(p)) if *p == first));
    assert_eq!(window.handle_events(Action::Confirm), RENDER);
    assert!(window.overlays().is_empty());
}

#[test]
fn add_torrent_wizard_round_trip() {
    let mut window = MainWindow::new(false, "/downloads".to_string());
    let mut dispatches = vec![window.handle_events(Action::AddMagnet)];
    assert!(matches!(window.overlays().top(), Some(Overlay::AddMagnet(_))));
    dispatches.extend(type_text(&mut window, "magnet:?xt=urn:btih:ABC"));
    dispatches.push(window.handle_events(Action::Confirm));
    match window.overlays().top() {
        Some(Overlay::AddMagnet(bar)) => {
            assert_eq!(bar.stage(), Stage::AskLocation);
            assert_eq!(bar.active_input().text(), "/downloads");
        },
        _ => panic!("the wizard stays open for the directory"),
    }
    dispatches.extend(type_text(&mut window, "/movies"));
    assert!(dispatches.iter().all(|d| *d == RENDER));
    let last = window.handle_events(Action::Confirm);
    assert_eq!(
        last,
        Dispatch {
            render: true,
            quit: false,
            command: Some(IssuedCommand {
                task: 0,
                action: TorrentAction::Add(
                    "magnet:?xt=urn:btih:ABC".to_string(),
                    Some("/downloads/movies".to_string()),
                ),
            }),
        }
    );
    assert!(window.overlays().is_empty());
    assert_eq!(
        window.tasks().list(),
        &vec![StatusTask {
            id: 0,
            kind: TaskKind::Add,
            description: "magnet:?xt=urn:btih:ABC".to_string(),
            state: TaskState::Pending,
        }]
    );
    // Nothing is issued a second time.
    assert_eq!(window.handle_events(Action::Confirm), IDLE);
    assert_eq!(window.tasks().len(), 1);
}

#[test]
fn cancelled_wizard_issues_nothing_and_is_popped() {
    let mut window = MainWindow::new(false, "/downloads".to_string());
    let _ = window.handle_events(Action::AddMagnet);
    let _ = type_text(&mut window, "magnet:?xt=urn:btih:ABC");
    let _ = window.handle_events(Action::Confirm);
    assert_eq!(window.handle_events(Action::Cancel), RENDER);
    assert!(window.overlays().is_empty());
    assert_eq!(window.tasks().len(), 0);
}

#[test]
fn wizard_rejects_an_empty_source_without_an_overlay() {
    let mut window = MainWindow::new(false, "/downloads".to_string());
    let _ = window.handle_events(Action::AddMagnet);
    assert_eq!(window.handle_events(Action::Confirm), IDLE);
    assert_eq!(window.overlays().len(), 1);
    match window.overlays().top() {
        Some(Overlay::AddMagnet(bar)) => assert_eq!(bar.stage(), Stage::AskMagnet),
        _ => panic!("the wizard is on top"),
    }
    assert_eq!(window.tasks().len(), 0);
}


#[test]
fn a_new_wizard_starts_afresh() {
    let mut window = MainWindow::new(false, "/downloads".to_string());
    let _ = window.handle_events(Action::AddMagnet);
    let _ = type_text(&mut window, "abc");
    let _ = window.handle_events(Action::Cancel);
    let _ = window.handle_events(Action::AddMagnet);
    match window.overlays().top() {
        Some(Overlay::AddMagnet(bar)) => {
            assert_eq!(bar.stage(), Stage::AskMagnet);
            assert_eq!(bar.active_input().text(), "");
        },
        _ => panic!("the wizard is on top"),
    }
}

#[test]
fn pause_starts_a_stopped_torrent() {
    let mut window = window_with(vec![torrent(7, "ubuntu.iso", TorrentStatus::Stopped)]);
    let dispatch = window.handle_events(Action::Pause);
    assert_eq!(
        dispatch,
        Dispatch {
            render: true,
            quit: false,
            command: Some(IssuedCommand { task: 0, action: TorrentAction::Start(vec![7]) }),
        }
    );
    assert_eq!(
        window.tasks().list(),
        &vec![StatusTask {
            id: 0,
            kind: TaskKind::Start,
            description: "ubuntu.iso".to_string(),
            state: TaskState::Pending,
        }]
    );
}

#[test]
fn pause_stops_a_torrent_in_any_other_state() {
    let states = [
        TorrentStatus::Downloading,
        TorrentStatus::Seeding,
        TorrentStatus::Verifying,
        TorrentStatus::QueuedToVerify,
        TorrentStatus::QueuedToDownload,
        TorrentStatus::QueuedToSeed,
    ];
    for status in states {
        let mut window = window_with(vec![torrent(3, "debian.iso", status)]);
        let dispatch = window.handle_events(Action::Pause);
        assert_eq!(
            dispatch.command,
            Some(IssuedCommand { task: 0, action: TorrentAction::Stop(vec![3]) })
        );
        assert_eq!(window.tasks().list()[0].kind, TaskKind::Stop);
    }
}

#[test]
fn pause_acts_on_the_row_under_the_cursor() {
    let mut window = window_with(vec![
        torrent(1, "a", TorrentStatus::Stopped),
        torrent(2, "b", TorrentStatus::Seeding),
        torrent(3, "c", TorrentStatus::Stopped),
    ]);
    assert_eq!(window.handle_events(Action::Down), RENDER);
    let dispatch = window.handle_events(Action::Pause);
    assert_eq!(
        dispatch.command,
        Some(IssuedCommand { task: 0, action: TorrentAction::Stop(vec![2]) })
    );
    assert_eq!(window.handle_events(Action::Down), RENDER);
    assert_eq!(window.handle_events(Action::Down), RENDER);
    let dispatch = window.handle_events(Action::Pause);
    assert_eq!(
        dispatch.command,
        Some(IssuedCommand { task: 1, action: TorrentAction::Start(vec![3]) })
    );
    assert_eq!(window.handle_events(Action::Up), RENDER);
    assert_eq!(window.torrents_tab().table_manager().current(), Some(1));
}

#[test]
fn pause_without_a_selection_is_a_no_op() {
    let mut window = MainWindow::new(false, "/downloads".to_string());
    assert_eq!(window.handle_events(Action::Pause), IDLE);
    assert_eq!(window.tasks().len(), 0);
    assert!(window.overlays().is_empty());
}

#[test]
fn toggle_pause_describes_the_command_by_the_name() {
    let command = toggle_pause(&torrent(5, "arch.iso", TorrentStatus::Stopped));
    assert_eq!(command.action, TorrentAction::Start(vec![5]));
    assert_eq!(command.action.kind(), TaskKind::Start);
    assert_eq!(command.description, "arch.iso");
    let command = toggle_pause(&torrent(5, "arch.iso", TorrentStatus::Downloading));
    assert_eq!(command.action, TorrentAction::Stop(vec![5]));
    assert_eq!(TorrentAction::Delete(vec![1], true).kind(), TaskKind::Delete);
    assert_eq!(TorrentAction::Add("a".to_string(), None).kind(), TaskKind::Add);
}

#[test]
fn failed_torrent_poll_leaves_everything_as_it_was() {
    let rows = vec![torrent(1, "a", TorrentStatus::Seeding), torrent(2, "b", TorrentStatus::Seeding)];
    let mut window = window_with(rows.clone());
    let _ = window.handle_events(Action::Down);
    assert!(!window.handle_update(Update::Torrents(Err(failure("timeout")))));
    assert_eq!(window.torrents_tab().table_manager().rows(), &rows);
    assert_eq!(window.torrents_tab().table_manager().current(), Some(1));
    assert!(window.overlays().is_empty());
    assert_eq!(window.tasks().len(), 0);
}

#[test]
fn failed_stats_poll_leaves_everything_as_it_was() {
    let mut window = MainWindow::new(false, String::new());
    assert!(window.handle_update(Update::Stats(Ok(stats()))));
    assert!(!window.handle_update(Update::Stats(Err(failure("timeout")))));
    assert_eq!(window.torrents_tab().stats(), Some(stats()));
    assert!(window.overlays().is_empty());
}

#[test]
fn polls_do_not_disturb_an_open_overlay() {
    let mut window = MainWindow::new(false, "/downloads".to_string());
    let _ = window.handle_events(Action::AddMagnet);
    let _ = type_text(&mut window, "abc");
    assert!(window.handle_update(Update::Torrents(Ok(vec![torrent(1, "a", TorrentStatus::Seeding)]))));
    match window.overlays().top() {
        Some(Overlay::AddMagnet(bar)) => assert_eq!(bar.active_input().text(), "abc"),
        _ => panic!("the wizard is on top"),
    }
    assert_eq!(window.torrents_tab().table_manager().rows().len(), 1);
}

#[test]
fn statistics_popup_needs_statistics() {
    let mut window = MainWindow::new(false, String::new());
    assert_eq!(window.handle_events(Action::ShowStats), IDLE);
    assert!(window.overlays().is_empty());
    assert!(window.handle_update(Update::Stats(Ok(stats()))));
    assert_eq!(window.handle_events(Action::ShowStats), RENDER);
    assert!(matches!(window.overlays().top(), Some(Overlay::Statistics(p)) if p.stats == stats()));
    assert_eq!(window.handle_events(Action::ShowStats), IDLE);
    assert_eq!(window.overlays().len(), 1);
    assert_eq!(window.handle_events(Action::Quit), RENDER);
    assert!(window.overlays().is_empty());
}

#[test]
fn answers_resolve_their_tasks() {
    let mut window = window_with(vec![
        torrent(1, "a", TorrentStatus::Stopped),
        torrent(2, "b", TorrentStatus::Seeding),
    ]);
    let first = window.handle_events(Action::Pause).command.map(|c| c.task);
    let _ = window.handle_events(Action::Down);
    let second = window.handle_events(Action::Pause).command.map(|c| c.task);
    assert_eq!((first, second), (Some(0), Some(1)));
    assert!(window.handle_update(Update::Resolved(0, Ok(()))));
    assert!(window.overlays().is_empty());
    assert!(window.handle_update(Update::Resolved(1, Err(failure("no such torrent")))));
    assert_eq!(window.tasks().list()[0].state, TaskState::Success);
    assert_eq!(window.tasks().list()[1].state, TaskState::Failed("no such torrent".to_string()));
    assert!(!window.handle_update(Update::Resolved(0, Err(failure("late")))));
    assert!(!window.handle_update(Update::Resolved(1, Err(failure("again")))));
    assert!(!window.handle_update(Update::Resolved(9, Ok(()))));
    assert!(!window.handle_update(Update::Resolved(9, Err(failure("unknown")))));
    assert_eq!(window.tasks().list()[0].state, TaskState::Success);
    assert_eq!(window.tasks().list()[1].state, TaskState::Failed("no such torrent".to_string()));
}

#[test]
fn failed_command_is_told_in_an_error_popup() {
    let mut window = window_with(vec![torrent(1, "a", TorrentStatus::Stopped)]);
    let _ = window.handle_events(Action::ShowHelp);
    assert!(window.handle_update(Update::Resolved(0, Err(failure("nothing issued")))) == false);
    assert_eq!(window.overlays().len(), 1);
    let _ = window.handle_events(Action::Quit);
    let _ = window.handle_events(Action::Pause);
    let _ = window.handle_events(Action::ShowHelp);
    assert!(window.handle_update(Update::Resolved(0, Err(failure("daemon unreachable")))));
    assert_eq!(window.overlays().len(), 2);
    assert!(matches!(
        window.overlays().top(),
        Some(Overlay::Error(popup)) if popup.title == "Error" && popup.message == "daemon unreachable"
    ));
    assert_eq!(window.handle_events(Action::Confirm), RENDER);
    assert!(matches!(window.overlays().top(), Some(Overlay::Help(_))));
}

#[test]
fn keys_are_bound_to_intents_on_the_base_view() {
    let mut window = window_with(vec![
        torrent(1, "a", TorrentStatus::Stopped),
        torrent(2, "b", TorrentStatus::Seeding),
    ]);
    assert!(!window.is_typing());
    assert_eq!(window.handle_key(Key::Char('j')), RENDER);
    assert_eq!(window.torrents_tab().table_manager().current(), Some(1));
    assert_eq!(window.handle_key(Key::Up), RENDER);
    assert_eq!(window.torrents_tab().table_manager().current(), Some(0));
    assert_eq!(window.handle_key(Key::Char('x')), IDLE);
    assert_eq!(window.handle_key(Key::Other), IDLE);
    assert_eq!(window.handle_key(Key::Char('2')), IDLE);
    assert_eq!(window.tabs().current_tab, CurrentTab::Search);
    assert_eq!(
        window.handle_key(Key::Char('p')).command,
        Some(IssuedCommand { task: 0, action: TorrentAction::Start(vec![1]) })
    );
    assert_eq!(window.handle_key(Key::Char('?')), RENDER);
    assert!(matches!(window.overlays().top(), Some(Overlay::Help(_))));
    assert!(!window.is_typing());
    assert_eq!(window.handle_key(Key::Esc), IDLE);
    assert_eq!(window.handle_key(Key::Enter), RENDER);
    assert!(window.overlays().is_empty());
    assert_eq!(
        window.handle_key(Key::Char('q')),
        Dispatch { render: false, quit: true, command: None }
    );
}

#[test]
fn keys_are_text_while_an_input_bar_is_on_top() {
    let mut window = MainWindow::new(false, "/downloads".to_string());
    assert_eq!(window.handle_key(Key::Char('m')), RENDER);
    assert!(window.is_typing());
    for c in "q?jk".chars() {
        assert_eq!(window.handle_key(Key::Char(c)), RENDER);
    }
    match window.overlays().top() {
        Some(Overlay::AddMagnet(bar)) => assert_eq!(bar.active_input().text(), "q?jk"),
        _ => panic!("the wizard is on top"),
    }
    assert_eq!(window.handle_key(Key::Esc), RENDER);
    assert!(window.overlays().is_empty());
    assert_eq!(window.handle_key(Key::Char('/')), RENDER);
    assert!(window.is_typing());
    assert_eq!(window.handle_key(Key::Enter), RENDER);
    assert!(!window.is_typing());
}

#[test]
fn key_bindings() {
    let bound = [
        (Key::Char('q'), Action::Quit),
        (Key::Char('?'), Action::ShowHelp),
        (Key::Char('j'), Action::Down),
        (Key::Down, Action::Down),
        (Key::Char('k'), Action::Up),
        (Key::Up, Action::Up),
        (Key::Enter, Action::Confirm),
        (Key::Esc, Action::Cancel),
        (Key::Char('t'), Action::ShowStats),
        (Key::Char('p'), Action::Pause),
        (Key::Char('m'), Action::AddMagnet),
        (Key::Char('/'), Action::Search),
        (Key::Char('1'), Action::ChangeTab(1)),
        (Key::Char('2'), Action::ChangeTab(2)),
    ];
    for (key, action) in bound {
        assert_eq!(Action::from_key(key, false), Some(action));
        assert_eq!(Action::from_key(key, true), Some(Action::Input(key)));
    }
    for key in [Key::Char('x'), Key::Char('3'), Key::Left, Key::Home, Key::Backspace, Key::Other] {
        assert_eq!(Action::from_key(key, false), None);
        assert_eq!(Action::from_key(key, true), Some(Action::Input(key)));
    }
}

#[test]
fn quit_on_the_base_view_leaves() {
    let mut window = MainWindow::new(false, String::new());
    assert_eq!(
        window.handle_events(Action::Quit),
        Dispatch { render: false, quit: true, command: None }
    );
    let _ = window.handle_events(Action::ShowHelp);
    assert_eq!(window.handle_events(Action::Quit), RENDER);
    assert!(window.overlays().is_empty());
}

#[test]
fn tabs_change_on_the_base_view_only() {
    let mut window = MainWindow::new(false, String::new());
    assert_eq!(window.handle_events(Action::ChangeTab(2)), IDLE);
    assert_eq!(window.tabs().current_tab, CurrentTab::Search);
    let _ = window.handle_events(Action::ShowHelp);
    assert_eq!(window.handle_events(Action::ChangeTab(1)), IDLE);
    assert_eq!(window.tabs().current_tab, CurrentTab::Search);
}

#[test]
fn intents_without_meaning_do_nothing() {
    let mut window = window_with(vec![torrent(1, "a", TorrentStatus::Stopped)]);
    for action in [Action::Render, Action::Confirm, Action::Cancel, Action::Input(Key::Char('x'))] {
        assert_eq!(window.handle_events(action), IDLE);
    }
    assert!(window.overlays().is_empty());
    assert_eq!(window.tasks().len(), 0);
}

#[test]
fn filter_follows_the_typing_and_cancel_clears_it() {
    let mut window = window_with(vec![
        torrent(1, "ubuntu.iso", TorrentStatus::Seeding),
        torrent(2, "debian.iso", TorrentStatus::Seeding),
        torrent(3, "Kubuntu.iso", TorrentStatus::Seeding),
    ]);
    let _ = window.handle_events(Action::Down);
    let _ = window.handle_events(Action::Down);
    assert_eq!(window.handle_events(Action::Search), RENDER);
    assert!(matches!(window.overlays().top(), Some(Overlay::Filter(_))));
    let _ = type_text(&mut window, "UBU");
    assert_eq!(shown_names(&window), vec!["ubuntu.iso", "Kubuntu.iso"]);
    assert_eq!(window.torrents_tab().table_manager().current(), Some(1));
    assert_eq!(window.handle_events(Action::Confirm), RENDER);
    assert!(window.overlays().is_empty());
    assert_eq!(shown_names(&window), vec!["ubuntu.iso", "Kubuntu.iso"]);
    // The input opens on the pattern in force; cancelling clears the filter.
    let _ = window.handle_events(Action::Search);
    match window.overlays().top() {
        Some(Overlay::Filter(bar)) => assert_eq!(bar.input().text(), "UBU"),
        _ => panic!("the filter input is on top"),
    }
    assert_eq!(window.handle_events(Action::Cancel), RENDER);
    assert!(window.overlays().is_empty());
    assert_eq!(shown_names(&window), vec!["ubuntu.iso", "debian.iso", "Kubuntu.iso"]);
    assert!(!window.torrents_tab().table_manager().is_filtered());
}

#[test]
fn deleting_the_pattern_clears_the_filter() {
    let mut window = window_with(vec![
        torrent(1, "ubuntu.iso", TorrentStatus::Seeding),
        torrent(2, "debian.iso", TorrentStatus::Seeding),
    ]);
    let _ = window.handle_events(Action::Search);
    let _ = type_text(&mut window, "d");
    assert_eq!(shown_names(&window), vec!["debian.iso"]);
    assert_eq!(window.handle_events(Action::Input(Key::Backspace)), RENDER);
    assert!(!window.torrents_tab().table_manager().is_filtered());
    assert_eq!(shown_names(&window), vec!["ubuntu.iso", "debian.iso"]);
}

#[test]
fn cursor_stays_valid_whatever_happens() {
    let lists = [
        vec![],
        vec![torrent(1, "alpha", TorrentStatus::Seeding)],
        vec![
            torrent(1, "alpha", TorrentStatus::Seeding),
            torrent(2, "beta", TorrentStatus::Stopped),
            torrent(3, "gamma", TorrentStatus::Downloading),
        ],
    ];
    let mut window = MainWindow::new(true, String::new());
    for round in 0..3 {
        for rows in &lists {
            let _ = window.handle_update(Update::Torrents(Ok(rows.clone())));
            let _ = window.handle_events(Action::Down);
            let _ = window.handle_events(Action::Down);
            let _ = window.handle_events(Action::Search);
            let _ = type_text(&mut window, ["a", "mm", "zz"][round]);
            let _ = window.handle_update(Update::Torrents(Err(failure("x"))));
            let _ = window.handle_events(Action::Confirm);
            let table = window.torrents_tab().table_manager();
            match table.current() {
                None => assert!(table.visible().is_empty()),
                Some(i) => assert!(i < table.visible().len()),
            }
            assert_eq!(table.get_current_item().is_none(), table.visible().is_empty());
        }
    }
}
