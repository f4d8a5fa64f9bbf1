//! A session's life, end to end: spawn, echo, exit - played against the
//! registry and the reader exactly as a host drives them.

use agent_station::reader::{OutputReader, TerminalEventKind};
use agent_station::terminal::{
    get_terminal_status, list_terminals, mark_terminal_exited, spawn_terminal, write_terminal,
    TerminalManager,
};

#[test]
fn echo_then_exit() {
    let mut m = TerminalManager::new();
    let id = spawn_terminal(&mut m, "proj-1".to_string()).expect("spawn registers the session");

    // The host accepts the keyboard input for a cooperating shell.
    assert!(write_terminal(&m, &id).is_ok());

    // The shell echoes; the stream hands the bytes over in chunks.
    let mut r = OutputReader::new(id.clone());
    let mut accumulated = String::new();
    for chunk in [&b"$ echo hello\r\n"[..], &b"hello\r\n"[..]] {
        let ev = r.on_chunk(chunk);
        assert_eq!(ev.kind, TerminalEventKind::Output);
        assert_eq!(ev.payload.terminal_id, id);
        accumulated.push_str(&ev.payload.data);
    }
    assert!(accumulated.contains("hello"));

    // The host writes "exit\n"; the shell leaves and the stream ends.
    assert!(write_terminal(&m, &id).is_ok());
    let ev = r.on_end();
    assert_eq!(ev.kind, TerminalEventKind::Exit);
    assert_eq!(ev.payload.data, "");
    assert!(mark_terminal_exited(&mut m, &id));

    // Dead, but still listed until an explicit kill.
    assert!(!get_terminal_status(&m, &id));
    assert_eq!(list_terminals(&m).len(), 1);
}
