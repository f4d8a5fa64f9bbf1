//! Spawn planning: what to launch, where, and with which environment.
//!
//! Allocating the pseudo-terminal and launching the shell are the host's
//! work; the decisions behind them are made here. `spawn_command` fixes
//! the shell to run, the login flag, the working directory, the child's
//! environment and the initial geometry, and `fresh_session_id` draws the
//! id a new session will be registered under.

use vstd::prelude::*;

verus! {

/// A terminal geometry: rows and columns of text, pixel sizes unused.
#[derive(Clone, Copy, Debug, PartialEq, Eq, Structural)]
pub struct PtyGeometry {
    pub rows: u16,
    pub cols: u16,
    pub pixel_width: u16,
    pub pixel_height: u16,
}

/// The geometry every new terminal starts with: 80 columns by 24 rows.
pub fn initial_geometry() -> (g: PtyGeometry)
    ensures
        g.rows == 24,
        g.cols == 80,
        g.pixel_width == 0,
        g.pixel_height == 0,
{
    PtyGeometry { rows: 24, cols: 80, pixel_width: 0, pixel_height: 0 }
}

/// The geometry a resize request applies: the requested rows and
/// columns, pixel sizes left at zero.
pub fn resize_geometry(cols: u16, rows: u16) -> (g: PtyGeometry)
    ensures
        g.rows == rows,
        g.cols == cols,
        g.pixel_width == 0,
        g.pixel_height == 0,
{
    PtyGeometry { rows, cols, pixel_width: 0, pixel_height: 0 }
}

/// The shell to launch: the user's `SHELL` environment value when one is
/// set, `/bin/bash` otherwise.
pub fn resolve_shell(shell_env: Option<String>) -> (r: String)
    ensures
        match shell_env {
            Some(s) => r == s,
            None => r@ == "/bin/bash"@,
        },
{
    match shell_env {
        Some(s) => s,
        None => String::from_str("/bin/bash"),
    }
}

/// Everything the host needs to launch the shell for one session: the
/// resolved shell, run as a login shell in the given working directory,
/// with a color-capable terminal type and a session-correlation variable
/// carrying the project id, at the initial geometry.
pub struct SpawnCommand {
    pub shell: String,
    pub login_shell: bool,
    pub cwd: String,
    pub env: Vec<(String, String)>,
    pub geometry: PtyGeometry,
}

/// Plans the launch of a session's shell. `shell_env` is the value of
/// the user's `SHELL` variable, read by the host.
pub fn spawn_command(project_id: &String, cwd: String, shell_env: Option<String>) -> (c:
    SpawnCommand)
    ensures
        match shell_env {
            Some(s) => c.shell == s,
            None => c.shell@ == "/bin/bash"@,
        },
        c.login_shell,
        c.cwd == cwd,
        c.env@.len() == 3,
        c.env@[0].0@ == "TERM"@,
        c.env@[0].1@ == "xterm-256color"@,
        c.env@[1].0@ == "COLORTERM"@,
        c.env@[1].1@ == "truecolor"@,
        c.env@[2].0@ == "CLAUDE_CODE_TASK_LIST_ID"@,
        c.env@[2].1@ == project_id@,
        c.geometry.rows == 24,
        c.geometry.cols == 80,
        c.geometry.pixel_width == 0,
        c.geometry.pixel_height == 0,
{
    let mut env: Vec<(String, String)> = Vec::new();
    env.push((String::from_str("TERM"), String::from_str("xterm-256color")));
    env.push((String::from_str("COLORTERM"), String::from_str("truecolor")));
    env.push((String::from_str("CLAUDE_CODE_TASK_LIST_ID"), project_id.clone()));
    SpawnCommand { shell: resolve_shell(shell_env), login_shell: true, cwd, env, geometry: initial_geometry() }
}

/// Relies on `uuid::Uuid::new_v4` and its `Display` form: a random
/// version-4 id rendered as 36 hyphenated hexadecimal characters.
/// The draw is random, so nothing relates two calls; freshness against
/// the ids already issued is checked by the caller.
#[verifier::external_body]
pub(crate) fn fresh_session_id() -> (r: String)
    ensures
        r@.len() == 36,
{
    uuid::Uuid::new_v4().to_string()
}

} // verus!
