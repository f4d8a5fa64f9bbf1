use agent_station::spawn::{initial_geometry, resize_geometry, resolve_shell, spawn_command};

#[test]
fn initial_geometry_is_80_by_24() {
    let g = initial_geometry();
    assert_eq!(g.cols, 80);
    assert_eq!(g.rows, 24);
    assert_eq!(g.pixel_width, 0);
    assert_eq!(g.pixel_height, 0);
}

#[test]
fn resize_geometry_keeps_request() {
    let g = resize_geometry(132, 43);
    assert_eq!(g.cols, 132);
    assert_eq!(g.rows, 43);
    assert_eq!(g.pixel_width, 0);
    assert_eq!(g.pixel_height, 0);
}

#[test]
fn shell_falls_back_to_bash() {
    assert_eq!(resolve_shell(None), "/bin/bash");
    assert_eq!(resolve_shell(Some("/bin/zsh".to_string())), "/bin/zsh");
}

#[test]
fn spawn_command_fixes_the_launch() {
    let c = spawn_command(
        &"proj-1".to_string(),
        "/tmp".to_string(),
        Some("/bin/zsh".to_string()),
    );
    assert_eq!(c.shell, "/bin/zsh");
    assert!(c.login_shell);
    assert_eq!(c.cwd, "/tmp");
    assert_eq!(c.env.len(), 3);
    assert_eq!(c.env[0], ("TERM".to_string(), "xterm-256color".to_string()));
    assert_eq!(c.env[1], ("COLORTERM".to_string(), "truecolor".to_string()));
    assert_eq!(
        c.env[2],
        ("CLAUDE_CODE_TASK_LIST_ID".to_string(), "proj-1".to_string())
    );
    assert_eq!(c.geometry.cols, 80);
    assert_eq!(c.geometry.rows, 24);
}
