use agent_station::terminal::{
    get_terminal_for_project, get_terminal_status, kill_terminal, list_terminals,
    mark_terminal_exited, resize_terminal, spawn_terminal, write_terminal, TerminalError,
    TerminalInstance, TerminalManager, INTERRUPT_BYTE,
};

fn spawn_ok(manager: &mut TerminalManager, project: &str) -> String {
    spawn_terminal(manager, project.to_string()).expect("spawning should register a session")
}

#[test]
fn spawn_yields_fresh_listed_id() {
    let mut m = TerminalManager::new();
    assert_eq!(list_terminals(&m).len(), 0);
    let id = spawn_ok(&mut m, "proj-1");
    assert_eq!(id.len(), 36);
    let listed = list_terminals(&m);
    assert_eq!(listed.len(), 1);
    assert_eq!(listed[0].id, id);
    assert_eq!(listed[0].project_id, "proj-1");
    assert!(listed[0].is_running);
    assert!(get_terminal_status(&m, &id));
}

#[test]
fn spawn_twice_yields_distinct_ids() {
    let mut m = TerminalManager::new();
    let a = spawn_ok(&mut m, "proj-1");
    let b = spawn_ok(&mut m, "proj-2");
    assert_ne!(a, b);
    assert_eq!(list_terminals(&m).len(), 2);
    assert!(get_terminal_status(&m, &a));
    assert!(get_terminal_status(&m, &b));
}

#[test]
fn write_unknown_id_is_not_found() {
    let m = TerminalManager::new();
    let r = write_terminal(&m, &"missing".to_string());
    assert_eq!(r, Err(TerminalError::NotFound));
    assert_eq!(TerminalError::NotFound.message(), "Terminal not found");
}

#[test]
fn write_known_id_is_approved() {
    let mut m = TerminalManager::new();
    let id = spawn_ok(&mut m, "proj-1");
    assert_eq!(write_terminal(&m, &id), Ok(()));
}

#[test]
fn resize_live_session_succeeds() {
    let mut m = TerminalManager::new();
    let id = spawn_ok(&mut m, "proj-1");
    let g = resize_terminal(&m, &id, 132, 43).expect("live session must resize");
    assert_eq!(g.cols, 132);
    assert_eq!(g.rows, 43);
    assert_eq!(g.pixel_width, 0);
    assert_eq!(g.pixel_height, 0);
}

#[test]
fn resize_killed_or_unknown_id_is_not_found() {
    let mut m = TerminalManager::new();
    let id = spawn_ok(&mut m, "proj-1");
    assert!(kill_terminal(&mut m, &id));
    assert_eq!(resize_terminal(&m, &id, 132, 43), Err(TerminalError::NotFound));
    assert_eq!(
        resize_terminal(&m, &"never-existed".to_string(), 132, 43),
        Err(TerminalError::NotFound)
    );
}

#[test]
fn kill_removes_and_is_idempotent() {
    let mut m = TerminalManager::new();
    let id = spawn_ok(&mut m, "proj-1");
    let other = spawn_ok(&mut m, "proj-2");
    assert!(kill_terminal(&mut m, &id));
    assert!(list_terminals(&m).iter().all(|t| t.id != id));
    assert!(!get_terminal_status(&m, &id));
    assert!(!kill_terminal(&mut m, &id));
    assert_eq!(list_terminals(&m).len(), 1);
    assert!(get_terminal_status(&m, &other));
}

#[test]
fn exit_flips_status_but_keeps_listing() {
    let mut m = TerminalManager::new();
    let id = spawn_ok(&mut m, "proj-1");
    assert!(mark_terminal_exited(&mut m, &id));
    assert!(!get_terminal_status(&m, &id));
    let listed = list_terminals(&m);
    assert_eq!(listed.len(), 1);
    assert_eq!(listed[0].id, id);
    assert!(!listed[0].is_running);
    assert!(kill_terminal(&mut m, &id));
    assert_eq!(list_terminals(&m).len(), 0);
}

#[test]
fn exit_of_killed_session_is_a_no_op() {
    let mut m = TerminalManager::new();
    let id = spawn_ok(&mut m, "proj-1");
    assert!(kill_terminal(&mut m, &id));
    assert!(!mark_terminal_exited(&mut m, &id));
    assert!(!get_terminal_status(&m, &id));
}

#[test]
fn find_by_project_none_and_some() {
    let mut m = TerminalManager::new();
    assert!(get_terminal_for_project(&m, &"proj-1".to_string()).is_none());
    let id = spawn_ok(&mut m, "proj-1");
    let info = get_terminal_for_project(&m, &"proj-1".to_string())
        .expect("a matching session must be found");
    assert_eq!(info.id, id);
    assert_eq!(info.project_id, "proj-1");
    assert!(info.is_running);
    assert!(get_terminal_for_project(&m, &"proj-2".to_string()).is_none());
}

#[test]
fn find_by_project_returns_earliest_match() {
    let m = TerminalManager {
        terminals: vec![
            TerminalInstance {
                id: "a".to_string(),
                project_id: "proj-1".to_string(),
                running: false,
            },
            TerminalInstance {
                id: "b".to_string(),
                project_id: "proj-1".to_string(),
                running: true,
            },
        ],
        issued: vec!["a".to_string(), "b".to_string()],
    };
    let info = get_terminal_for_project(&m, &"proj-1".to_string()).unwrap();
    assert_eq!(info.id, "a");
    assert!(!info.is_running);
}

#[test]
fn killed_ids_are_never_reissued() {
    let mut m = TerminalManager::new();
    let first = spawn_ok(&mut m, "proj-1");
    assert!(kill_terminal(&mut m, &first));
    let second = spawn_ok(&mut m, "proj-1");
    assert_ne!(first, second);
    assert!(!get_terminal_status(&m, &first));
    assert!(get_terminal_status(&m, &second));
    assert_eq!(m.issued.len(), 2);
}

#[test]
fn default_manager_is_empty() {
    let m = TerminalManager::default();
    assert_eq!(list_terminals(&m).len(), 0);
    assert_eq!(m.issued.len(), 0);
    assert!(m.is_well_formed());
}

#[test]
fn interrupt_byte_is_end_of_text() {
    assert_eq!(INTERRUPT_BYTE, 3);
}

#[test]
fn well_formedness_is_decidable_at_run_time() {
    let mut m = TerminalManager::new();
    assert!(m.is_well_formed());
    let _ = spawn_ok(&mut m, "proj-1");
    let _ = spawn_ok(&mut m, "proj-2");
    assert!(m.is_well_formed());
    let twin = TerminalManager {
        terminals: vec![
            TerminalInstance {
                id: "same".to_string(),
                project_id: "proj-1".to_string(),
                running: true,
            },
            TerminalInstance {
                id: "same".to_string(),
                project_id: "proj-2".to_string(),
                running: true,
            },
        ],
        issued: vec!["same".to_string()],
    };
    assert!(!twin.is_well_formed());
    let unrecorded = TerminalManager {
        terminals: vec![TerminalInstance {
            id: "ghostless".to_string(),
            project_id: "proj-1".to_string(),
            running: true,
        }],
        issued: vec![],
    };
    assert!(!unrecorded.is_well_formed());
}

#[test]
fn error_messages_name_each_failure() {
    assert_eq!(TerminalError::ResourceAllocation.message(), "Failed to open PTY");
    assert_eq!(TerminalError::Spawn.message(), "Failed to spawn command");
    assert_eq!(TerminalError::NotFound.message(), "Terminal not found");
    assert_eq!(TerminalError::Io.message(), "Terminal I/O failed");
    assert_eq!(TerminalError::Lock.message(), "Terminal lock poisoned");
}
