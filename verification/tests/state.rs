use agent_station::state::{AppState, Project};

#[test]
fn new_state_has_no_projects() {
    let s = AppState::new();
    assert!(s.projects.is_empty());
    let d = AppState::default();
    assert!(d.projects.is_empty());
}

#[test]
fn loaded_projects_are_kept_as_given() {
    let mut s = AppState::new();
    s.projects.push(Project {
        id: "p-1".to_string(),
        name: "demo".to_string(),
        path: "/tmp/demo".to_string(),
        has_active_process: false,
    });
    assert_eq!(s.projects.len(), 1);
    assert_eq!(s.projects[0].id, "p-1");
    assert_eq!(s.projects[0].name, "demo");
    assert_eq!(s.projects[0].path, "/tmp/demo");
    assert!(!s.projects[0].has_active_process);
}
