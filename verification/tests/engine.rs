use servelite::DEFAULT_PORT;
use servelite::FsEventKind;
use servelite::MAX_PORT_TRIES;
use servelite::MAX_RECENT_DIRS;
use servelite::ServerError;
use servelite::ServerState;
use servelite::WsAction;
use servelite::WsEvent;
use servelite::find_available_port;
use servelite::format_url;
use servelite::next_candidate_port;
use servelite::reload_payload;
use servelite::should_reload;
use servelite::start_message;
use servelite::ws_step;

fn start_on(state: &mut ServerState, path: &str, channel: u64, watch: u64, port: u16, task: u64) {
    let (_td, begun) = state.begin_start(true);
    assert!(begun.is_ok());
    let (_td, r) = state.finish_start(
        String::from(path),
        channel,
        Some(watch),
        Some(port),
        Some(task),
    );
    assert!(r.is_ok());
}

#[test]
fn test_server_lifecycle() {
    let mut state = ServerState::new();
    let (_td, begun) = state.begin_start(true);
    assert!(begun.is_ok());
    let result = state.finish_start(
        String::from("servelite_test"),
        1,
        Some(1),
        Some(DEFAULT_PORT),
        Some(1),
    );
    assert!(result.1.is_ok(), "Failed to start server: {result:?}");

    assert!(state.is_running(), "Server handle should exist");
    assert!(state.root_dir.is_some(), "Root directory should be set");
    assert_eq!(
        state.recent_snapshot().len(),
        1,
        "Should have one recent directory"
    );

    let result = state.stop_server();
    assert!(result.1.is_ok(), "Failed to stop server: {result:?}");
    assert!(state.server_handle.is_none(), "Server handle should be None");
}

#[test]
fn test_port_selection() {
    let free = vec![true; MAX_PORT_TRIES as usize];
    let port = find_available_port(DEFAULT_PORT, &free);
    assert!(port.is_some(), "Should find an available port");
    assert!(
        port.map_or(false, |p| p >= DEFAULT_PORT),
        "Port should be >= DEFAULT_PORT"
    );

    let mut occupied = vec![true; MAX_PORT_TRIES as usize];
    occupied[0] = false;
    let port = find_available_port(DEFAULT_PORT, &occupied);
    assert!(port.is_some(), "Should find an alternative port");
    assert!(
        port.map_or(false, |p| p > DEFAULT_PORT),
        "Port should be > DEFAULT_PORT"
    );
}

#[test]
fn port_search_picks_first_free() {
    let free = vec![false, false, true, true];
    assert_eq!(find_available_port(8000, &free), Some(8002));
}

#[test]
fn port_search_exhausted() {
    let free = vec![false; MAX_PORT_TRIES as usize];
    assert_eq!(find_available_port(DEFAULT_PORT, &free), None);
    assert_eq!(find_available_port(DEFAULT_PORT, &Vec::new()), None);
}

#[test]
fn candidate_ports_count_up_within_budget() {
    assert_eq!(next_candidate_port(DEFAULT_PORT, 0), Some(8000));
    assert_eq!(next_candidate_port(DEFAULT_PORT, 1), Some(8001));
    assert_eq!(next_candidate_port(DEFAULT_PORT, 99), Some(8099));
    assert_eq!(next_candidate_port(DEFAULT_PORT, 100), None);
    assert_eq!(next_candidate_port(65500, 99), None);
}

fn recent_of(state: &ServerState) -> Vec<String> {
    state.recent_snapshot().clone()
}

fn strs(v: &[&str]) -> Vec<String> {
    v.iter().map(|s| String::from(*s)).collect()
}

#[test]
fn recent_dirs_move_to_front_without_duplication() {
    let mut state = ServerState::new();
    for (i, p) in ["E", "D", "C", "B", "A"].iter().enumerate() {
        start_on(&mut state, p, i as u64, 1, 8000, 1);
    }
    assert_eq!(recent_of(&state), strs(&["A", "B", "C", "D", "E"]));

    start_on(&mut state, "C", 9, 1, 8000, 2);
    assert_eq!(recent_of(&state), strs(&["C", "A", "B", "D", "E"]));

    start_on(&mut state, "F", 10, 1, 8000, 3);
    assert_eq!(recent_of(&state), strs(&["F", "C", "A", "B", "D"]));
}

#[test]
fn recent_dirs_never_exceed_capacity() {
    let mut state = ServerState::new();
    for i in 0..12u64 {
        start_on(&mut state, &format!("dir{i}"), i, 1, 8000, i);
        assert!(state.recent_snapshot().len() <= MAX_RECENT_DIRS);
    }
    assert_eq!(state.recent_snapshot().len(), MAX_RECENT_DIRS);
}

#[test]
fn stop_while_idle_is_not_running_and_mutates_nothing() {
    let mut state = ServerState::new();
    let (td, r) = state.stop_server();
    assert_eq!(r, Err(ServerError::NotRunning));
    assert_eq!(td.task, None);
    assert_eq!(td.watch, None);
    assert!(!state.is_running());
    assert!(state.root_dir.is_none());
    assert_eq!(state.recent_snapshot().len(), 0);
}

#[test]
fn stop_twice_then_start_again() {
    let mut state = ServerState::new();
    start_on(&mut state, "some_dir", 1, 2, 8000, 3);

    let (td, r) = state.stop_server();
    assert_eq!(r, Ok(()));
    assert_eq!(td.task, Some(3));
    assert_eq!(td.watch, Some(2));

    let (td, r) = state.stop_server();
    assert_eq!(r, Err(ServerError::NotRunning));
    assert_eq!(td.task, None);

    start_on(&mut state, "some_dir", 4, 5, 8001, 6);
    assert!(state.is_running());
    assert_eq!(state.bound_port(), Some(8001));
}

#[test]
fn restart_tears_down_previous_instance_first() {
    let mut state = ServerState::new();
    start_on(&mut state, "first", 1, 11, 8000, 21);

    let (td, begun) = state.begin_start(true);
    assert!(begun.is_ok());
    assert_eq!(td.task, Some(21), "old task must be aborted before the new one binds");
    assert_eq!(td.watch, Some(11), "old watch must be released");
    assert!(!state.is_running());

    let (td, r) = state.finish_start(String::from("second"), 2, Some(12), Some(8001), Some(22));
    assert!(r.is_ok());
    assert_eq!(td.task, None);
    assert_eq!(state.bound_port(), Some(8001));
}

#[test]
fn invalid_root_aborts_start() {
    let mut state = ServerState::new();
    let (_td, r) = state.begin_start(false);
    assert_eq!(r, Err(ServerError::InvalidRoot));
    assert!(!state.is_running());
    assert_eq!(state.recent_snapshot().len(), 0);
}

#[test]
fn watch_failure_aborts_start_cleanly() {
    let mut state = ServerState::new();
    let (_td, begun) = state.begin_start(true);
    assert!(begun.is_ok());
    let (td, r) = state.finish_start(String::from("d"), 1, None, None, None);
    assert_eq!(r, Err(ServerError::WatchSetupFailed));
    assert_eq!(td.watch, None);
    assert!(!state.is_running());
    assert_eq!(state.recent_snapshot().len(), 0, "a failed start must not touch the recent list");
}

#[test]
fn port_exhaustion_aborts_start_and_releases_watch() {
    let mut state = ServerState::new();
    let (_td, begun) = state.begin_start(true);
    assert!(begun.is_ok());
    let (td, r) = state.finish_start(String::from("d"), 1, Some(7), None, None);
    assert_eq!(r, Err(ServerError::NoPortAvailable));
    assert_eq!(td.watch, Some(7), "the partially created watch must be handed back");
    assert!(!state.is_running());
}

#[test]
fn bind_failure_aborts_start_and_releases_watch() {
    let mut state = ServerState::new();
    let (_td, begun) = state.begin_start(true);
    assert!(begun.is_ok());
    let (td, r) = state.finish_start(String::from("d"), 1, Some(7), Some(8000), None);
    assert_eq!(r, Err(ServerError::NoPortAvailable));
    assert_eq!(td.watch, Some(7));
    assert!(!state.is_running());
}

#[test]
fn start_reports_serving_url() {
    let mut state = ServerState::new();
    let (_td, begun) = state.begin_start(true);
    assert!(begun.is_ok());
    let (_td, r) = state.finish_start(String::from("d"), 1, Some(2), Some(8123), Some(3));
    assert_eq!(r.unwrap(), "Server started at http://localhost:8123");
}

#[test]
fn url_formatting() {
    assert_eq!(format_url(8000), "http://localhost:8000");
    assert_eq!(format_url(80), "http://localhost:80");
    assert_eq!(format_url(7), "http://localhost:7");
    assert_eq!(format_url(65535), "http://localhost:65535");
    assert_eq!(start_message(8000), "Server started at http://localhost:8000");
}

#[test]
fn bound_port_tracks_session() {
    let mut state = ServerState::new();
    assert_eq!(state.bound_port(), None);
    start_on(&mut state, "d", 1, 2, 8042, 3);
    assert_eq!(state.bound_port(), Some(8042));
    let _ = state.stop_server();
    assert_eq!(state.bound_port(), None);
}

#[test]
fn only_modify_events_trigger_reload() {
    assert!(should_reload(&FsEventKind::Modify));
    assert!(!should_reload(&FsEventKind::Create));
    assert!(!should_reload(&FsEventKind::Remove));
    assert!(!should_reload(&FsEventKind::Access));
    assert!(!should_reload(&FsEventKind::Other));
}

#[test]
fn websocket_step_protocol() {
    assert_eq!(ws_step(WsEvent::ReloadSignal), WsAction::SendReload);
    assert_eq!(ws_step(WsEvent::ClientFrame), WsAction::Continue);
    assert_eq!(ws_step(WsEvent::ChannelClosed), WsAction::Close);
    assert_eq!(ws_step(WsEvent::SendFailed), WsAction::Close);
    assert_eq!(ws_step(WsEvent::ClientGone), WsAction::Close);
    assert_eq!(reload_payload(), "reload");
}

#[test]
fn error_messages() {
    assert_eq!(ServerError::InvalidRoot.message(), "Directory does not exist");
    assert_eq!(ServerError::WatchSetupFailed.message(), "Failed to watch directory");
    assert_eq!(ServerError::NoPortAvailable.message(), "No available port found");
    assert_eq!(ServerError::NotRunning.message(), "Server not running");
}

#[test]
fn default_state_is_idle() {
    let state = ServerState::default();
    assert!(!state.is_running());
    assert_eq!(state.bound_port(), None);
    assert_eq!(state.recent_snapshot().len(), 0);
}
