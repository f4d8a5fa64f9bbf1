//! The per-session output stream: chunks in, events out.
//!
//! One `OutputReader` accompanies each session for its whole life. The
//! host's background reader blocks on the terminal's readable handle and
//! hands every result here: a non-empty chunk of raw bytes becomes one
//! output event carrying its lossy UTF-8 decoding, and the end of the
//! stream (or a read error) becomes the single exit event, after which
//! the reader is finished for good. The ghost history ties the emitted
//! events to the chunks read, in order, which is what the ordering and
//! single-exit guarantees below are proved from.

use vstd::prelude::*;

use crate::terminal::TerminalOutput;

verus! {

/// The decoded text of a raw chunk, as lossy UTF-8 decoding produces
/// it: named here, never spelled out.
pub uninterp spec fn utf8_lossy(bytes: Seq<u8>) -> Seq<char>;

/// Relies on `alloc::string::String::from_utf8_lossy`: the decoding
/// depends on the bytes alone, substituting a replacement character for
/// every invalid sequence.
#[verifier::external_body]
fn decode_utf8_lossy(bytes: &[u8]) -> (r: String)
    ensures
        r@ == utf8_lossy(bytes@),
{
    String::from_utf8_lossy(bytes).to_string()
}

/// The two kinds of notification a session pushes to its subscriber.
#[derive(Clone, Copy, Debug, PartialEq, Eq, Structural)]
pub enum TerminalEventKind {
    Output,
    Exit,
}

/// The channel name an event of this kind is emitted under.
pub fn event_name(kind: TerminalEventKind) -> (r: &'static str)
    ensures
        kind == TerminalEventKind::Output ==> r@ == "terminal-output"@,
        kind == TerminalEventKind::Exit ==> r@ == "terminal-exit"@,
{
    match kind {
        TerminalEventKind::Output => "terminal-output",
        TerminalEventKind::Exit => "terminal-exit",
    }
}

/// One notification for the event sink.
#[derive(Clone, Debug)]
pub struct TerminalEvent {
    pub kind: TerminalEventKind,
    pub payload: TerminalOutput,
}

/// The event stream state of one session, with the ghost history of
/// what was read and what was emitted.
pub struct OutputReader {
    /// The id of the session this reader serves.
    pub terminal_id: String,
    /// Set once, when the stream ends; no event follows.
    pub finished: bool,
    /// The raw chunks delivered so far, in order.
    pub chunks: Ghost<Seq<Seq<u8>>>,
    /// The events emitted so far, in order.
    pub emitted: Ghost<Seq<TerminalEvent>>,
}

impl OutputReader {
    /// The emitted history is exactly: one output event per chunk, in
    /// chunk order, each carrying the chunk's decoding, and - once the
    /// stream has ended - one final exit event with empty data.
    pub open spec fn wf(&self) -> bool {
        &&& self.emitted@.len() == self.chunks@.len() + (if self.finished {
            1int
        } else {
            0int
        })
        &&& forall|i: int|
            0 <= i < self.chunks@.len() ==> {
                &&& (#[trigger] self.emitted@[i]).kind == TerminalEventKind::Output
                &&& self.emitted@[i].payload.terminal_id@ == self.terminal_id@
                &&& self.emitted@[i].payload.data@ == utf8_lossy(self.chunks@[i])
            }
        &&& self.finished ==> {
            &&& self.emitted@.last().kind == TerminalEventKind::Exit
            &&& self.emitted@.last().payload.terminal_id@ == self.terminal_id@
            &&& self.emitted@.last().payload.data@ == Seq::<char>::empty()
        }
    }

    /// A fresh reader for a session: nothing read, nothing emitted.
    pub fn new(terminal_id: String) -> (r: Self)
        ensures
            r.wf(),
            !r.finished,
            r.terminal_id == terminal_id,
            r.chunks@ == Seq::<Seq<u8>>::empty(),
            r.emitted@ == Seq::<TerminalEvent>::empty(),
    {
        OutputReader {
            terminal_id,
            finished: false,
            chunks: Ghost(Seq::empty()),
            emitted: Ghost(Seq::empty()),
        }
    }

    /// A non-empty chunk was read: decode it and emit one output event.
    /// The host pushes the event to the sink as it stands.
    pub fn on_chunk(&mut self, chunk: &[u8]) -> (ev: TerminalEvent)
        requires
            old(self).wf(),
            !old(self).finished,
        ensures
            final(self).wf(),
            !final(self).finished,
            final(self).terminal_id == old(self).terminal_id,
            final(self).chunks@ == old(self).chunks@.push(chunk@),
            final(self).emitted@ == old(self).emitted@.push(ev),
            ev.kind == TerminalEventKind::Output,
            ev.payload.terminal_id@ == old(self).terminal_id@,
            ev.payload.data@ == utf8_lossy(chunk@),
    {
        let data = decode_utf8_lossy(chunk);
        let ev = TerminalEvent {
            kind: TerminalEventKind::Output,
            payload: TerminalOutput { terminal_id: self.terminal_id.clone(), data },
        };
        self.chunks = Ghost(self.chunks@.push(chunk@));
        self.emitted = Ghost(self.emitted@.push(ev));
        ev
    }

    /// The stream ended or errored: finish and emit the one exit event,
    /// with empty data. The host then marks the session exited in the
    /// registry and stops reading.
    pub fn on_end(&mut self) -> (ev: TerminalEvent)
        requires
            old(self).wf(),
            !old(self).finished,
        ensures
            final(self).wf(),
            final(self).finished,
            final(self).terminal_id == old(self).terminal_id,
            final(self).chunks@ == old(self).chunks@,
            final(self).emitted@ == old(self).emitted@.push(ev),
            ev.kind == TerminalEventKind::Exit,
            ev.payload.terminal_id@ == old(self).terminal_id@,
            ev.payload.data@ == Seq::<char>::empty(),
    {
        let ev = TerminalEvent {
            kind: TerminalEventKind::Exit,
            payload: TerminalOutput {
                terminal_id: self.terminal_id.clone(),
                data: String::new(),
            },
        };
        self.finished = true;
        self.emitted = Ghost(self.emitted@.push(ev));
        ev
    }
}

/// The concatenation of the data payloads of the output events among
/// `events`, in order; exit events contribute nothing.
pub open spec fn emitted_text(events: Seq<TerminalEvent>) -> Seq<char>
    decreases events.len(),
{
    if events.len() == 0 {
        Seq::empty()
    } else {
        emitted_text(events.drop_last()) + (if events.last().kind == TerminalEventKind::Output {
            events.last().payload.data@
        } else {
            Seq::<char>::empty()
        })
    }
}

/// The concatenation of the decodings of `chunks`, in order.
pub open spec fn decoded_text(chunks: Seq<Seq<u8>>) -> Seq<char>
    decreases chunks.len(),
{
    if chunks.len() == 0 {
        Seq::empty()
    } else {
        decoded_text(chunks.drop_last()) + utf8_lossy(chunks.last())
    }
}

proof fn lemma_emitted_text_prefix(r: OutputReader, n: int)
    requires
        r.wf(),
        0 <= n <= r.chunks@.len(),
    ensures
        emitted_text(r.emitted@.take(n)) == decoded_text(r.chunks@.take(n)),
    decreases n,
{
    if n > 0 {
        lemma_emitted_text_prefix(r, n - 1);
        assert(r.emitted@.take(n).drop_last() =~= r.emitted@.take(n - 1));
        assert(r.chunks@.take(n).drop_last() =~= r.chunks@.take(n - 1));
        assert(r.emitted@.take(n).last() == r.emitted@[n - 1]);
        assert(r.chunks@.take(n).last() == r.chunks@[n - 1]);
    } else {
        assert(r.emitted@.take(0) =~= Seq::<TerminalEvent>::empty());
        assert(r.chunks@.take(0) =~= Seq::<Seq<u8>>::empty());
    }
}

/// Output order is preserved: whatever chunks a session's stream
/// delivered, the concatenation of the emitted output payloads equals
/// the decoding of those chunks in the order they were read - nothing
/// reordered, nothing coalesced across chunks, and the exit event adds
/// no text.
pub proof fn lemma_output_preserves_order(r: OutputReader)
    requires
        r.wf(),
    ensures
        emitted_text(r.emitted@) == decoded_text(r.chunks@),
{
    let n = r.chunks@.len() as int;
    lemma_emitted_text_prefix(r, n);
    assert(r.chunks@.take(n) =~= r.chunks@);
    if r.finished {
        assert(r.emitted@.drop_last() =~= r.emitted@.take(n));
        assert(r.emitted@.last().kind == TerminalEventKind::Exit);
    } else {
        assert(r.emitted@.take(n) =~= r.emitted@);
    }
}

/// At most one exit event exists in a session's history; when the
/// stream has ended it is the last event, so no output event ever
/// follows it, and before the end there is none at all.
pub proof fn lemma_single_exit(r: OutputReader)
    requires
        r.wf(),
    ensures
        forall|i: int|
            0 <= i < r.emitted@.len() && (#[trigger] r.emitted@[i]).kind
                == TerminalEventKind::Exit ==> r.finished && i == r.emitted@.len() - 1,
        r.finished <==> exists|i: int|
            0 <= i < r.emitted@.len() && (#[trigger] r.emitted@[i]).kind
                == TerminalEventKind::Exit,
{
    assert forall|i: int|
        0 <= i < r.emitted@.len() && (#[trigger] r.emitted@[i]).kind
            == TerminalEventKind::Exit implies r.finished && i == r.emitted@.len() - 1 by {
        assert(i < r.chunks@.len() ==> r.emitted@[i].kind == TerminalEventKind::Output);
    }
    if r.finished {
        assert(r.emitted@.last().kind == TerminalEventKind::Exit);
        assert(r.emitted@[r.emitted@.len() - 1].kind == TerminalEventKind::Exit);
    }
}

} // verus!
