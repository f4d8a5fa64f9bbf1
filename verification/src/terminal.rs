//! The session registry and the command surface over it.
//!
//! A `TerminalManager` is the single source of truth for which terminal
//! sessions exist. Each entry binds a session id to its project id and a
//! liveness flag. The host owns the native pseudo-terminal handles and the
//! background reader; it consults the functions here for every command
//! (write, resize, kill, status, list, find-by-project) and acts on their
//! verdicts, so the bookkeeping rules are all proved in this module.

use vstd::prelude::*;

use crate::spawn;
use crate::spawn::PtyGeometry;

verus! {

/// The error taxonomy of the command surface.
///
/// `ResourceAllocation` and `Spawn` are reported by the host when
/// allocating the pseudo-terminal or launching the shell fails;
/// `NotFound` when a command names an unknown session id; `Io` when a
/// write or resize syscall on a live session fails; `Lock` when a shared
/// lock was poisoned by an earlier failure.
#[derive(Clone, Copy, Debug, PartialEq, Eq, Structural)]
pub enum TerminalError {
    ResourceAllocation,
    Spawn,
    NotFound,
    Io,
    Lock,
}

impl TerminalError {
    /// A human-readable description of the error.
    pub fn message(&self) -> (r: &'static str)
        ensures
            *self == TerminalError::ResourceAllocation ==> r@ == "Failed to open PTY"@,
            *self == TerminalError::Spawn ==> r@ == "Failed to spawn command"@,
            *self == TerminalError::NotFound ==> r@ == "Terminal not found"@,
            *self == TerminalError::Io ==> r@ == "Terminal I/O failed"@,
            *self == TerminalError::Lock ==> r@ == "Terminal lock poisoned"@,
    {
        match self {
            TerminalError::ResourceAllocation => "Failed to open PTY",
            TerminalError::Spawn => "Failed to spawn command",
            TerminalError::NotFound => "Terminal not found",
            TerminalError::Io => "Terminal I/O failed",
            TerminalError::Lock => "Terminal lock poisoned",
        }
    }
}

/// A point-in-time snapshot of one session, as handed to the UI layer.
#[derive(Clone, Debug)]
pub struct TerminalInfo {
    pub id: String,
    pub project_id: String,
    pub is_running: bool,
}

/// The payload of an output or exit event: which terminal, and the
/// decoded text (empty for an exit event).
#[derive(Clone, Debug)]
pub struct TerminalOutput {
    pub terminal_id: String,
    pub data: String,
}

/// One registered session: its id, the project it was opened for, and
/// whether its output stream is still live. The native handles for the
/// session's terminal are owned by the host, keyed by the same id, and
/// outlive this entry: removing the entry never invalidates them.
#[derive(Debug)]
pub struct TerminalInstance {
    pub id: String,
    pub project_id: String,
    pub running: bool,
}

/// The registry of sessions. The host guards it with a single lock held
/// only for the duration of each registry operation, never across I/O.
///
/// Besides the live entries, the registry remembers every id it ever
/// issued, so that ids are unique for the host's whole lifetime: a
/// killed session's id is never handed out again.
#[derive(Debug)]
pub struct TerminalManager {
    pub terminals: Vec<TerminalInstance>,
    /// Every id a spawn ever returned, in issue order; never shrinks.
    pub issued: Vec<String>,
}

impl TerminalManager {
    /// The registry contents, in registration order.
    pub open spec fn sessions(&self) -> Seq<TerminalInstance> {
        self.terminals@
    }

    /// Whether this id was ever issued by a spawn, including ids whose
    /// sessions were killed since.
    pub open spec fn was_issued(&self, id: Seq<char>) -> bool {
        exists|i: int| 0 <= i < self.issued@.len() && (#[trigger] self.issued@[i])@ == id
    }

    /// Well-formedness: session ids are unique across the registry, and
    /// every registered id is on the issued record.
    pub open spec fn wf(&self) -> bool {
        &&& forall|i: int, j: int|
            0 <= i < self.sessions().len() && 0 <= j < self.sessions().len() && i != j
                ==> #[trigger] self.sessions()[i].id@ != #[trigger] self.sessions()[j].id@
        &&& forall|i: int|
            0 <= i < self.sessions().len() ==> self.was_issued(
                (#[trigger] self.sessions()[i]).id@,
            )
    }

    /// Whether some session with this id is registered.
    pub open spec fn contains_id(&self, id: Seq<char>) -> bool {
        exists|i: int|
            0 <= i < self.sessions().len() && (#[trigger] self.sessions()[i]).id@ == id
    }

    /// The observable liveness of an id: false for an unknown id.
    pub open spec fn status_of(&self, id: Seq<char>) -> bool {
        exists|i: int|
            0 <= i < self.sessions().len() && (#[trigger] self.sessions()[i]).id@ == id
                && self.sessions()[i].running
    }

    /// Whether some session carries this project id.
    pub open spec fn has_project(&self, project_id: Seq<char>) -> bool {
        exists|i: int|
            0 <= i < self.sessions().len()
                && (#[trigger] self.sessions()[i]).project_id@ == project_id
    }

    /// An empty registry with an empty issue record.
    pub fn new() -> (r: Self)
        ensures
            r.sessions().len() == 0,
            r.issued@.len() == 0,
            r.wf(),
    {
        TerminalManager { terminals: Vec::new(), issued: Vec::new() }
    }

    /// The position on the issued record of this id, if it was ever
    /// handed out.
    fn id_was_issued(&self, id: &String) -> (r: bool)
        ensures
            r == self.was_issued(id@),
    {
        let n = self.issued.len();
        let mut i: usize = 0;
        while i < n
            invariant
                i <= n,
                n == self.issued@.len(),
                forall|k: int| 0 <= k < i ==> (#[trigger] self.issued@[k])@ != id@,
            decreases n - i,
        {
            if self.issued[i] == *id {
                return true;
            }
            i = i + 1;
        }
        false
    }

    /// Decides `wf()` at run time, so a host that cannot carry the
    /// proof can still test it before a registry mutation.
    #[verifier::loop_isolation(false)]
    pub fn is_well_formed(&self) -> (r: bool)
        ensures
            r == self.wf(),
    {
        let n = self.terminals.len();
        let mut i: usize = 0;
        while i < n
            invariant
                i <= n,
                forall|a: int, b: int|
                    0 <= a < i && 0 <= b < n && a != b ==> #[trigger] self.sessions()[a].id@
                        != #[trigger] self.sessions()[b].id@,
            decreases n - i,
        {
            let mut j: usize = i + 1;
            while j < n
                invariant
                    i < j <= n,
                    forall|b: int|
                        i < b < j ==> self.sessions()[i as int].id@ != (#[trigger] self.sessions()[b]).id@,
                decreases n - j,
            {
                if self.terminals[i].id == self.terminals[j].id {
                    proof {
                        assert(self.sessions()[i as int].id@ == self.sessions()[j as int].id@);
                        assert(i as int != j as int);
                        assert(!self.wf());
                    }
                    return false;
                }
                j = j + 1;
            }
            i = i + 1;
        }
        let mut k: usize = 0;
        while k < n
            invariant
                k <= n,
                forall|a: int|
                    0 <= a < k ==> self.was_issued((#[trigger] self.sessions()[a]).id@),
            decreases n - k,
        {
            if !self.id_was_issued(&self.terminals[k].id) {
                proof {
                    assert(!self.was_issued(self.sessions()[k as int].id@));
                    assert(!self.wf());
                }
                return false;
            }
            k = k + 1;
        }
        true
    }

    /// The position of the session with this id, if any. Only the live
    /// registry is searched, not the issued record.
    fn find_index(&self, terminal_id: &String) -> (r: Option<usize>)
        ensures
            match r {
                Some(i) => i < self.sessions().len() && self.sessions()[i as int].id@
                    == terminal_id@,
                None => !self.contains_id(terminal_id@),
            },
    {
        let n = self.terminals.len();
        let mut i: usize = 0;
        while i < n
            invariant
                i <= n,
                n == self.sessions().len(),
                forall|k: int| 0 <= k < i ==> (#[trigger] self.sessions()[k]).id@ != terminal_id@,
            decreases n - i,
        {
            if self.terminals[i].id == *terminal_id {
                return Some(i);
            }
            i = i + 1;
        }
        None
    }
}

impl Default for TerminalManager {
    fn default() -> (r: Self)
        ensures
            r.sessions().len() == 0,
            r.issued@.len() == 0,
            r.wf(),
    {
        TerminalManager::new()
    }
}

/// Registers a new session and returns its fresh id. The host calls
/// this only once the pseudo-terminal is allocated and the shell is
/// launched (per `crate::spawn::spawn_command`); a failure before that
/// point is reported as `ResourceAllocation` or `Spawn` and leaves no
/// registry trace, as this function was never reached.
///
/// The returned id was never issued before - not even to a session
/// killed since - and is registered, and live, afterwards; every other
/// entry is untouched, and so is the status of every other id. The id
/// is drawn at random, so freshness is checked against the issued
/// record; a draw can only collide with an id issued earlier, so on an
/// empty record the first draw is taken and success is certain. In the
/// (practically unreachable) case that every draw collides, an error
/// is returned and the registry is left unchanged.
#[verifier::loop_isolation(false)]
pub fn spawn_terminal(manager: &mut TerminalManager, project_id: String) -> (r: Result<
    String,
    TerminalError,
>)
    requires
        old(manager).wf(),
    ensures
        final(manager).wf(),
        match r {
            Ok(id) => {
                &&& !old(manager).was_issued(id@)
                &&& !old(manager).contains_id(id@)
                &&& final(manager).was_issued(id@)
                &&& final(manager).contains_id(id@)
                &&& final(manager).status_of(id@)
                &&& final(manager).issued@ == old(manager).issued@.push(id)
                &&& final(manager).sessions().len() == old(manager).sessions().len() + 1
                &&& forall|i: int|
                    0 <= i < old(manager).sessions().len() ==> final(manager).sessions()[i]
                        == old(manager).sessions()[i]
                &&& final(manager).sessions().last().id == id
                &&& final(manager).sessions().last().project_id == project_id
                &&& final(manager).sessions().last().running
                &&& forall|x: Seq<char>|
                    x != id@ ==> #[trigger] final(manager).status_of(x) == old(
                        manager,
                    ).status_of(x)
                &&& forall|x: Seq<char>|
                    x != id@ ==> #[trigger] final(manager).contains_id(x) == old(
                        manager,
                    ).contains_id(x)
            },
            Err(e) => {
                &&& e == TerminalError::ResourceAllocation
                &&& old(manager).issued@.len() > 0
                &&& final(manager).sessions() == old(manager).sessions()
                &&& final(manager).issued@ == old(manager).issued@
            },
        },
{
    let mut attempts: usize = 16;
    while attempts > 0
        invariant
            manager.sessions() == old(manager).sessions(),
            manager.issued@ == old(manager).issued@,
            attempts < 16 ==> manager.issued@.len() > 0,
        decreases attempts,
    {
        let id = spawn::fresh_session_id();
        if !manager.id_was_issued(&id) {
            let inst = TerminalInstance {
                id: id.clone(),
                project_id: project_id.clone(),
                running: true,
            };
            proof {
                assert(!old(manager).contains_id(id@)) by {
                    if old(manager).contains_id(id@) {
                        let k = choose|k: int|
                            0 <= k < old(manager).sessions().len() && old(
                                manager,
                            ).sessions()[k].id@ == id@;
                        assert(old(manager).was_issued(old(manager).sessions()[k].id@));
                    }
                }
            }
            manager.terminals.push(inst);
            manager.issued.push(id.clone());
            proof {
                let s = manager.sessions();
                let n = old(manager).sessions().len() as int;
                assert(s[n].id@ == id@);
                assert(forall|k: int| 0 <= k < n ==> s[k] == old(manager).sessions()[k]);
                assert(manager.issued@ == old(manager).issued@.push(id));
                assert(manager.issued@[manager.issued@.len() - 1]@ == id@);
                assert forall|x: Seq<char>| old(manager).was_issued(x) implies manager.was_issued(
                    x,
                ) by {
                    let w = choose|w: int|
                        0 <= w < old(manager).issued@.len() && (old(manager).issued@[w])@ == x;
                    assert((manager.issued@[w])@ == x);
                }
                assert forall|i: int, j: int|
                    0 <= i < s.len() && 0 <= j < s.len() && i != j implies #[trigger] s[i].id@
                    != #[trigger] s[j].id@ by {
                    if i < n && j < n {
                        assert(old(manager).sessions()[i].id@ != old(manager).sessions()[j].id@);
                    } else if i == n {
                        assert(old(manager).was_issued(old(manager).sessions()[j].id@));
                    } else if j == n {
                        assert(old(manager).was_issued(old(manager).sessions()[i].id@));
                    }
                }
                assert forall|i: int| 0 <= i < s.len() implies manager.was_issued(
                    (#[trigger] s[i]).id@,
                ) by {
                    if i < n {
                        assert(old(manager).was_issued(old(manager).sessions()[i].id@));
                    }
                }
                assert forall|x: Seq<char>| x != id@ implies #[trigger] manager.status_of(x)
                    == old(manager).status_of(x) by {
                    if manager.status_of(x) {
                        let k = choose|k: int|
                            0 <= k < s.len() && s[k].id@ == x && s[k].running;
                        assert(k != n);
                        assert(old(manager).sessions()[k].id@ == x
                            && old(manager).sessions()[k].running);
                    }
                    if old(manager).status_of(x) {
                        let k = choose|k: int|
                            0 <= k < n && old(manager).sessions()[k].id@ == x && old(
                                manager,
                            ).sessions()[k].running;
                        assert(s[k].id@ == x && s[k].running);
                    }
                }
                assert forall|x: Seq<char>| x != id@ implies #[trigger] manager.contains_id(x)
                    == old(manager).contains_id(x) by {
                    if manager.contains_id(x) {
                        let k = choose|k: int| 0 <= k < s.len() && s[k].id@ == x;
                        assert(k != n);
                        assert(old(manager).sessions()[k].id@ == x);
                    }
                    if old(manager).contains_id(x) {
                        let k = choose|k: int|
                            0 <= k < n && old(manager).sessions()[k].id@ == x;
                        assert(s[k].id@ == x);
                    }
                }
            }
            return Ok(id);
        }
        attempts = attempts - 1;
    }
    Err(TerminalError::ResourceAllocation)
}

/// Looks up the session a write is destined for. On `Ok` the host holds
/// the session's input lock, writes the bytes and flushes; a syscall
/// failure there is an `Io` error and does not remove the session (the
/// reader reports process death independently).
pub fn write_terminal(manager: &TerminalManager, terminal_id: &String) -> (r: Result<
    (),
    TerminalError,
>)
    ensures
        r is Ok <==> manager.contains_id(terminal_id@),
        r is Err ==> r == Err::<(), TerminalError>(TerminalError::NotFound),
{
    match manager.find_index(terminal_id) {
        Some(_) => Ok(()),
        None => Err(TerminalError::NotFound),
    }
}

/// Returns the current liveness of the id, or false for an unknown id;
/// an unknown id is not an error.
pub fn get_terminal_status(manager: &TerminalManager, terminal_id: &String) -> (r: bool)
    requires
        manager.wf(),
    ensures
        r == manager.status_of(terminal_id@),
{
    match manager.find_index(terminal_id) {
        Some(i) => {
            let r = manager.terminals[i].running;
            proof {
                assert(forall|k: int|
                    0 <= k < manager.sessions().len() && (#[trigger] manager.sessions()[k]).id@
                        == terminal_id@ ==> k == i as int);
            }
            r
        },
        None => false,
    }
}

/// Looks up the session a resize is destined for and fixes the geometry
/// to apply: the requested columns and rows, pixel sizes zero. On `Ok`
/// the host applies the geometry to the session's control handle; a
/// syscall failure there is an `Io` error.
pub fn resize_terminal(
    manager: &TerminalManager,
    terminal_id: &String,
    cols: u16,
    rows: u16,
) -> (r: Result<PtyGeometry, TerminalError>)
    ensures
        r is Ok <==> manager.contains_id(terminal_id@),
        r matches Ok(g) ==> g.cols == cols && g.rows == rows && g.pixel_width == 0
            && g.pixel_height == 0,
        r is Err ==> r == Err::<PtyGeometry, TerminalError>(TerminalError::NotFound),
{
    match manager.find_index(terminal_id) {
        Some(_) => Ok(spawn::resize_geometry(cols, rows)),
        None => Err(TerminalError::NotFound),
    }
}

/// Removes the session from the registry; its id stays on the issued
/// record, so no later spawn reuses it. Removing an unknown id is a
/// no-op, not an error, so a repeated kill changes nothing. The result
/// says whether an entry was removed; for a removed session the host
/// sends the best-effort interrupt byte (`INTERRUPT_BYTE`) on the
/// session's input handle and then discards its handles. That only
/// requests interruption: a process that ignores it keeps running, with
/// its reader still emitting, even though the registry no longer lists
/// the id.
pub fn kill_terminal(manager: &mut TerminalManager, terminal_id: &String) -> (removed: bool)
    requires
        old(manager).wf(),
    ensures
        final(manager).wf(),
        removed == old(manager).contains_id(terminal_id@),
        !final(manager).contains_id(terminal_id@),
        !final(manager).status_of(terminal_id@),
        final(manager).issued@ == old(manager).issued@,
        removed ==> exists|i: int|
            0 <= i < old(manager).sessions().len() && (#[trigger] old(manager).sessions()[i]).id@ == terminal_id@ && final(manager).sessions() == old(manager).sessions().remove(i),
        !removed ==> final(manager).sessions() == old(manager).sessions(),
{
    match manager.find_index(terminal_id) {
        Some(i) => {
            let ghost old_s = manager.sessions();
            let _ = manager.terminals.remove(i);
            proof {
                old_s.remove_ensures(i as int);
                let s = manager.sessions();
                assert(manager.issued@ == old(manager).issued@);
                assert forall|a: int| 0 <= a < s.len() implies manager.was_issued(
                    (#[trigger] s[a]).id@,
                ) by {
                    let a0 = if a < i as int {
                        a
                    } else {
                        a + 1
                    };
                    assert(s[a] == old_s[a0]);
                    assert(old(manager).was_issued(old_s[a0].id@));
                }
                assert forall|a: int|
                    0 <= a < s.len() implies #[trigger] s[a].id@ != terminal_id@ by {
                    if a < i as int {
                        assert(s[a] == old_s[a]);
                        assert(old_s[a].id@ != old_s[i as int].id@);
                    } else {
                        assert(s[a] == old_s[a + 1]);
                        assert(old_s[a + 1].id@ != old_s[i as int].id@);
                    }
                }
                assert forall|a: int, b: int|
                    0 <= a < s.len() && 0 <= b < s.len() && a != b implies #[trigger] s[a].id@
                    != #[trigger] s[b].id@ by {
                    let a0 = if a < i as int {
                        a
                    } else {
                        a + 1
                    };
                    let b0 = if b < i as int {
                        b
                    } else {
                        b + 1
                    };
                    assert(s[a] == old_s[a0]);
                    assert(s[b] == old_s[b0]);
                    assert(old_s[a0].id@ != old_s[b0].id@);
                }
            }
            true
        },
        None => false,
    }
}

/// The best-effort interrupt the host writes to a killed session's
/// input: the conventional end-of-text control code (Ctrl+C).
pub const INTERRUPT_BYTE: u8 = 3;

/// Flips the session's liveness to false, once its output stream has
/// ended; called by the host's reader when it finishes. Marking an id
/// the registry no longer holds (a killed session) changes nothing.
/// Liveness is monotonic: no entry ever goes back to running, and the
/// id stays listed until an explicit kill removes it.
pub fn mark_terminal_exited(manager: &mut TerminalManager, terminal_id: &String) -> (found: bool)
    requires
        old(manager).wf(),
    ensures
        final(manager).wf(),
        found == old(manager).contains_id(terminal_id@),
        !final(manager).status_of(terminal_id@),
        final(manager).contains_id(terminal_id@) == old(manager).contains_id(terminal_id@),
        final(manager).issued@ == old(manager).issued@,
        final(manager).sessions().len() == old(manager).sessions().len(),
        forall|i: int|
            0 <= i < old(manager).sessions().len() ==> {
                &&& (#[trigger] final(manager).sessions()[i]).id == old(manager).sessions()[i].id
                &&& final(manager).sessions()[i].project_id == old(manager).sessions()[i].project_id
                &&& (final(manager).sessions()[i].running ==> old(manager).sessions()[i].running)
                &&& (old(manager).sessions()[i].id@ != terminal_id@ ==> final(manager).sessions()[i] == old(manager).sessions()[i])
                &&& (old(manager).sessions()[i].id@ == terminal_id@ ==> !final(manager).sessions()[i].running)
            },
{
    match manager.find_index(terminal_id) {
        Some(i) => {
            manager.terminals[i].running = false;
            proof {
                assert(forall|k: int|
                    0 <= k < manager.sessions().len() && (#[trigger] manager.sessions()[k]).id@
                        == terminal_id@ ==> k == i as int);
                assert(manager.issued@ == old(manager).issued@);
                assert forall|a: int| 0 <= a < manager.sessions().len() implies manager.was_issued(
                    (#[trigger] manager.sessions()[a]).id@,
                ) by {
                    assert(manager.sessions()[a].id == old(manager).sessions()[a].id);
                    assert(old(manager).was_issued(old(manager).sessions()[a].id@));
                }
            }
            true
        },
        None => false,
    }
}

/// A point-in-time snapshot of every registered session, in
/// registration order.
pub fn list_terminals(manager: &TerminalManager) -> (r: Vec<TerminalInfo>)
    ensures
        r@.len() == manager.sessions().len(),
        forall|i: int|
            0 <= i < r@.len() ==> {
                &&& (#[trigger] r@[i]).id@ == manager.sessions()[i].id@
                &&& r@[i].project_id@ == manager.sessions()[i].project_id@
                &&& r@[i].is_running == manager.sessions()[i].running
            },
{
    let n = manager.terminals.len();
    let mut r: Vec<TerminalInfo> = Vec::new();
    let mut i: usize = 0;
    while i < n
        invariant
            i <= n,
            n == manager.sessions().len(),
            r@.len() == i,
            forall|k: int|
                0 <= k < i ==> {
                    &&& (#[trigger] r@[k]).id@ == manager.sessions()[k].id@
                    &&& r@[k].project_id@ == manager.sessions()[k].project_id@
                    &&& r@[k].is_running == manager.sessions()[k].running
                },
        decreases n - i,
    {
        let t = &manager.terminals[i];
        r.push(TerminalInfo {
            id: t.id.clone(),
            project_id: t.project_id.clone(),
            is_running: t.running,
        });
        i = i + 1;
    }
    r
}

/// The first session registered for this project, if any. Project ids
/// are not unique across sessions; when several match, the earliest
/// registered one is returned.
pub fn get_terminal_for_project(manager: &TerminalManager, project_id: &String) -> (r: Option<
    TerminalInfo,
>)
    ensures
        r is None <==> !manager.has_project(project_id@),
        r matches Some(info) ==> exists|i: int|
            {
                &&& 0 <= i < manager.sessions().len()
                &&& (#[trigger] manager.sessions()[i]).project_id@ == project_id@
                &&& info.id@ == manager.sessions()[i].id@
                &&& info.project_id@ == project_id@
                &&& info.is_running == manager.sessions()[i].running
                &&& forall|j: int|
                    0 <= j < i ==> (#[trigger] manager.sessions()[j]).project_id@ != project_id@
            },
{
    let n = manager.terminals.len();
    let mut i: usize = 0;
    while i < n
        invariant
            i <= n,
            n == manager.sessions().len(),
            forall|k: int|
                0 <= k < i ==> (#[trigger] manager.sessions()[k]).project_id@ != project_id@,
        decreases n - i,
    {
        let t = &manager.terminals[i];
        if t.project_id == *project_id {
            return Some(
                TerminalInfo {
                    id: t.id.clone(),
                    project_id: t.project_id.clone(),
                    is_running: t.running,
                },
            );
        }
        i = i + 1;
    }
    None
}

} // verus!
