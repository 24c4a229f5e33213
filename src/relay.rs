use vstd::prelude::*;

use crate::frame::{line_text, records, tail, texts, FrameReassembler};
use crate::messages::{
    http_error_result, notes_of, relay_result, ChatChunk, ChatResponse, Note, Notification,
};
use crate::registry::StreamRegistry;

verus! {

/// The state of one relay operation.
pub struct RelayModel {
    /// The session id.
    pub session: Seq<char>,
    /// Bytes received after the last record boundary.
    pub buffer: Seq<u8>,
    /// A record with `done` set was published.
    pub completed: bool,
    /// The cancel flag was seen set.
    pub cancelled: bool,
    /// No further fragment will be read.
    pub ended: bool,
    /// The terminal notification was published and the session unregistered.
    pub finished: bool,
    /// Every notification published so far, in order.
    pub notes: Seq<Note>,
}

/// A fresh operation: nothing received, nothing published.
pub open spec fn initial(session: Seq<char>) -> RelayModel {
    RelayModel {
        session,
        buffer: Seq::empty(),
        completed: false,
        cancelled: false,
        ended: false,
        finished: false,
        notes: Seq::empty(),
    }
}

/// The server accepted the request: `stream-start` goes out.
pub open spec fn start_step(m: RelayModel) -> RelayModel {
    RelayModel { notes: m.notes.push(Note::StreamStart(m.session)), ..m }
}

/// Whether the registry holds `session` with its cancel flag set.
pub open spec fn flag_set(registry: Map<Seq<char>, bool>, session: Seq<char>) -> bool {
    registry.contains_key(session) && registry[session]
}

/// The cancel flag was seen set: the loop stops and `cancelled` goes out.
pub open spec fn cancel_step(m: RelayModel) -> RelayModel {
    RelayModel {
        cancelled: true,
        ended: true,
        notes: m.notes.push(Note::Cancelled(m.session)),
        ..m
    }
}

/// A fragment arrives. With the cancel flag set the operation is cancelled;
/// otherwise the fragment joins the buffer and the completed records are taken
/// out of it.
pub open spec fn fragment_step(m: RelayModel, cancel: bool, bytes: Seq<u8>) -> RelayModel {
    if cancel {
        cancel_step(m)
    } else {
        RelayModel { buffer: tail(m.buffer + bytes), ..m }
    }
}

/// The records that a fragment completes.
pub open spec fn fragment_lines(m: RelayModel, cancel: bool, bytes: Seq<u8>) -> Seq<Seq<char>> {
    if cancel {
        Seq::empty()
    } else {
        records(m.buffer + bytes)
    }
}

/// One record line has been parsed: a malformed one (`None`) is skipped; a
/// parsed one goes out as a `chunk`, and `done` completes the stream and ends
/// the loop.
pub open spec fn record_step(m: RelayModel, record: Option<ChatChunk>) -> RelayModel {
    match record {
        None => m,
        Some(c) => RelayModel {
            completed: m.completed || c.done,
            ended: m.ended || c.done,
            notes: m.notes.push(Note::Chunk(m.session, c)),
            ..m
        },
    }
}

/// Reading the next fragment failed. With the cancel flag set the operation
/// is cancelled; otherwise `error` goes out and the loop ends.
pub open spec fn error_step(m: RelayModel, cancel: bool, message: Seq<char>) -> RelayModel {
    if cancel {
        cancel_step(m)
    } else {
        RelayModel { ended: true, notes: m.notes.push(Note::Error(m.session, message)), ..m }
    }
}

/// The transport has no more fragments. With the cancel flag set the
/// operation is cancelled (so no leftover text is parsed); otherwise the loop
/// just ends.
pub open spec fn end_step(m: RelayModel, cancel: bool) -> RelayModel {
    if cancel {
        cancel_step(m)
    } else {
        RelayModel { ended: true, ..m }
    }
}

/// The unterminated text left at the end that is still to be parsed: only where
/// the stream neither completed nor was cancelled.
pub open spec fn remainder_line(m: RelayModel) -> Option<Seq<char>> {
    if !m.completed && !m.cancelled && line_text(m.buffer).len() > 0 {
        Some(line_text(m.buffer))
    } else {
        None
    }
}

/// `complete` goes out, last, with whether the stream completed.
pub open spec fn finish_step(m: RelayModel) -> RelayModel {
    RelayModel {
        buffer: Seq::empty(),
        finished: true,
        notes: m.notes.push(Note::Complete(m.session, m.completed)),
        ..m
    }
}

/// Drives one relay operation: decides, for each thing that happens on the
/// transport, what is published and when the operation ends.
pub struct RelayDriver {
    session_id: String,
    frames: FrameReassembler,
    completed: bool,
    cancelled: bool,
    ended: bool,
    finished: bool,
    notes: Ghost<Seq<Note>>,
}

impl View for RelayDriver {
    type V = RelayModel;

    closed spec fn view(&self) -> RelayModel {
        RelayModel {
            session: self.session_id@,
            buffer: self.frames@,
            completed: self.completed,
            cancelled: self.cancelled,
            ended: self.ended,
            finished: self.finished,
            notes: self.notes@,
        }
    }
}

/// Relies on `uuid::Uuid::new_v4` and its hyphenated text form: a random id
/// of 36 characters.
#[verifier::external_body]
fn new_session_id() -> (r: String)
    ensures
        r@.len() == 36,
{
    uuid::Uuid::new_v4().to_string()
}

impl RelayDriver {
    /// Starts an operation under a fresh random session id and registers it.
    pub fn open(registry: &mut StreamRegistry) -> (r: RelayDriver)
        requires
            old(registry).wf(),
        ensures
            r@ == initial(r@.session),
            r@.session.len() == 36,
            final(registry).wf(),
            final(registry)@ == old(registry)@.insert(r@.session, false),
    {
        let id = new_session_id();
        RelayDriver::new(id, registry)
    }

    /// Starts an operation for `session_id` and registers the session with an
    /// unset cancel flag.
    pub fn new(session_id: String, registry: &mut StreamRegistry) -> (r: RelayDriver)
        requires
            old(registry).wf(),
        ensures
            r@ == initial(session_id@),
            final(registry).wf(),
            final(registry)@ == old(registry)@.insert(session_id@, false),
    {
        let key = session_id.clone();
        registry.register(key);
        RelayDriver {
            session_id,
            frames: FrameReassembler::new(),
            completed: false,
            cancelled: false,
            ended: false,
            finished: false,
            notes: Ghost(Seq::empty()),
        }
    }

    /// The session id.
    pub fn session_id(&self) -> (r: &String)
        ensures
            r@ == self@.session,
    {
        &self.session_id
    }

    /// Whether the read loop is over.
    pub fn is_ended(&self) -> (r: bool)
        ensures
            r == self@.ended,
    {
        self.ended
    }

    /// The server accepted the request.
    pub fn stream_started(&mut self) -> (out: Vec<Notification>)
        requires
            !old(self)@.ended,
            old(self)@.notes.len() == 0,
        ensures
            final(self)@ == start_step(old(self)@),
            notes_of(out@) == final(self)@.notes.skip(old(self)@.notes.len() as int),
    {
        let mut out: Vec<Notification> = Vec::new();
        out.push(Notification::StreamStart { session_id: self.session_id.clone() });
        self.notes = Ghost(self.notes@.push(Note::StreamStart(self.session_id@)));
        assert(notes_of(out@) =~= self.notes@.skip(old(self).notes@.len() as int));
        out
    }

    /// A fragment of the response body arrived. The registry says whether the
    /// session's cancel flag is set; the result holds the notifications to
    /// publish and the record lines to parse, in order.
    pub fn on_fragment(&mut self, bytes: &[u8], registry: &StreamRegistry) -> (r: (
        Vec<Notification>,
        Vec<String>,
    ))
        requires
            !old(self)@.ended,
            registry.wf(),
        ensures
            final(self)@ == fragment_step(
                old(self)@,
                flag_set(registry@, old(self)@.session),
                bytes@,
            ),
            texts(r.1@) == fragment_lines(old(self)@, flag_set(registry@, old(self)@.session), bytes@),
            notes_of(r.0@) == final(self)@.notes.skip(old(self)@.notes.len() as int),
    {
        if registry.is_cancelled(&self.session_id) {
            let out = self.cancel();
            let lines: Vec<String> = Vec::new();
            assert(texts(lines@) =~= Seq::<Seq<char>>::empty());
            (out, lines)
        } else {
            let out: Vec<Notification> = Vec::new();
            self.frames.feed(bytes);
            let lines = self.frames.drain_complete();
            assert(notes_of(out@) =~= self.notes@.skip(old(self).notes@.len() as int));
            (out, lines)
        }
    }

    /// One record line was parsed (`None`: it was malformed).
    pub fn on_record(&mut self, record: Option<ChatChunk>) -> (out: Vec<Notification>)
        requires
            !old(self)@.finished,
            !old(self)@.completed,
            !old(self)@.cancelled,
        ensures
            final(self)@ == record_step(old(self)@, record),
            notes_of(out@) == final(self)@.notes.skip(old(self)@.notes.len() as int),
    {
        let mut out: Vec<Notification> = Vec::new();
        match record {
            None => {},
            Some(c) => {
                let done = c.done;
                let ghost note = Note::Chunk(self.session_id@, c);
                out.push(Notification::Chunk { session_id: self.session_id.clone(), chunk: c });
                self.notes = Ghost(self.notes@.push(note));
                if done {
                    self.completed = true;
                    self.ended = true;
                }
            },
        }
        assert(notes_of(out@) =~= self.notes@.skip(old(self).notes@.len() as int));
        out
    }

    /// Reading the next fragment failed. The registry says whether the
    /// session's cancel flag is set, which is checked first.
    pub fn on_transport_error(&mut self, message: String, registry: &StreamRegistry) -> (out: Vec<
        Notification,
    >)
        requires
            !old(self)@.ended,
            registry.wf(),
        ensures
            final(self)@ == error_step(old(self)@, flag_set(registry@, old(self)@.session), message@),
            notes_of(out@) == final(self)@.notes.skip(old(self)@.notes.len() as int),
    {
        if registry.is_cancelled(&self.session_id) {
            return self.cancel();
        }
        let ghost text = message@;
        let mut out: Vec<Notification> = Vec::new();
        out.push(Notification::Error { session_id: self.session_id.clone(), message });
        self.notes = Ghost(self.notes@.push(Note::Error(self.session_id@, text)));
        self.ended = true;
        assert(notes_of(out@) =~= self.notes@.skip(old(self).notes@.len() as int));
        out
    }

    /// The transport has no more fragments. The registry says whether the
    /// session's cancel flag is set, which is checked before any leftover text
    /// is looked at.
    pub fn on_end(&mut self, registry: &StreamRegistry) -> (out: Vec<Notification>)
        requires
            !old(self)@.ended,
            registry.wf(),
        ensures
            final(self)@ == end_step(old(self)@, flag_set(registry@, old(self)@.session)),
            notes_of(out@) == final(self)@.notes.skip(old(self)@.notes.len() as int),
    {
        if registry.is_cancelled(&self.session_id) {
            return self.cancel();
        }
        self.ended = true;
        let out: Vec<Notification> = Vec::new();
        assert(notes_of(out@) =~= self.notes@.skip(old(self).notes@.len() as int));
        out
    }

    fn cancel(&mut self) -> (out: Vec<Notification>)
        ensures
            final(self)@ == cancel_step(old(self)@),
            notes_of(out@) == final(self)@.notes.skip(old(self)@.notes.len() as int),
    {
        let mut out: Vec<Notification> = Vec::new();
        out.push(Notification::Cancelled { session_id: self.session_id.clone() });
        self.notes = Ghost(self.notes@.push(Note::Cancelled(self.session_id@)));
        self.cancelled = true;
        self.ended = true;
        assert(notes_of(out@) =~= self.notes@.skip(old(self).notes@.len() as int));
        out
    }

    /// After the loop: the unterminated text left in the buffer, to be parsed
    /// as one last record, where the stream neither completed nor was cancelled.
    pub fn take_remainder(&mut self) -> (r: Option<String>)
        requires
            old(self)@.ended,
            !old(self)@.finished,
        ensures
            final(self)@ == (RelayModel { buffer: Seq::empty(), ..old(self)@ }),
            match r {
                Some(t) => remainder_line(old(self)@) == Some(t@),
                None => remainder_line(old(self)@).is_none(),
            },
    {
        let rest = self.frames.take_remainder();
        if self.completed || self.cancelled {
            None
        } else {
            rest
        }
    }

    /// The server refused the request with a non-success status (given as
    /// text): nothing is streamed, `complete` goes out, and the result carries
    /// the status. The session is then released with `close`.
    pub fn rejected(&mut self, status: &str) -> (r: (Vec<Notification>, ChatResponse))
        requires
            !old(self)@.ended,
            !old(self)@.finished,
            !old(self)@.completed,
        ensures
            final(self)@ == finish_step(RelayModel { ended: true, ..old(self)@ }),
            notes_of(r.0@) == final(self)@.notes.skip(old(self)@.notes.len() as int),
            !r.1.success,
            r.1.error.is_some() && r.1.error.unwrap()@ == "HTTP error: "@ + status@,
    {
        self.ended = true;
        let (out, _) = self.finish();
        (out, http_error_result(status))
    }

    /// Ends the operation: `complete` goes out, last, and the result says
    /// whether the stream completed. The session is then released with
    /// `close`.
    pub fn finish(&mut self) -> (r: (Vec<Notification>, ChatResponse))
        requires
            old(self)@.ended,
            !old(self)@.finished,
        ensures
            final(self)@ == finish_step(old(self)@),
            notes_of(r.0@) == final(self)@.notes.skip(old(self)@.notes.len() as int),
            r.1.success == old(self)@.completed,
            old(self)@.completed ==> r.1.error.is_none(),
            !old(self)@.completed ==> r.1.error.is_some() && r.1.error.unwrap()@
                == "Stream incomplete"@,
    {
        let mut out: Vec<Notification> = Vec::new();
        out.push(
            Notification::Complete { session_id: self.session_id.clone(), completed: self.completed },
        );
        self.notes = Ghost(self.notes@.push(Note::Complete(self.session_id@, self.completed)));
        self.finished = true;
        self.frames = FrameReassembler::new();
        assert(notes_of(out@) =~= self.notes@.skip(old(self).notes@.len() as int));
        (out, relay_result(self.completed))
    }

    /// Releases a finished operation: its session leaves the registry. Taking
    /// the driver by value makes this happen once.
    pub fn close(self, registry: &mut StreamRegistry)
        requires
            self@.finished,
            old(registry).wf(),
        ensures
            final(registry).wf(),
            final(registry)@ == old(registry)@.remove(self@.session),
    {
        registry.unregister(&self.session_id);
    }
}

/// A record left without a trailing delimiter at the end of the stream still
/// counts: if it parses with `done` set, the operation succeeds, and its
/// `chunk` is followed by `complete` with `completed` set.
pub proof fn lemma_trailing_record_completes(m: RelayModel, c: ChatChunk)
    requires
        m.ended,
        !m.finished,
        remainder_line(m).is_some(),
        c.done,
    ensures
        record_step(m, Some(c)).completed,
        finish_step(record_step(m, Some(c))).notes == m.notes.push(Note::Chunk(m.session, c)).push(
            Note::Complete(m.session, true),
        ),
{
}

/// Once every flag is set (as `cancel_all` leaves them), a session that was
/// registered is cancelled at its next step, whether a fragment arrives, the
/// transport fails or the stream ends: `cancelled` goes out, nothing more is
/// parsed, `complete` without completion follows, last; and closing removes it
/// from the registry.
pub proof fn lemma_cancel_reaches_session(
    before: Map<Seq<char>, bool>,
    after: Map<Seq<char>, bool>,
    m: RelayModel,
    bytes: Seq<u8>,
    message: Seq<char>,
)
    requires
        after.dom() == before.dom(),
        forall|k: Seq<char>| #[trigger] after.contains_key(k) ==> after[k],
        before.contains_key(m.session),
        !m.ended,
        !m.completed,
    ensures
        ({
            let cancel = flag_set(after, m.session);
            let m1 = cancel_step(m);
            &&& fragment_step(m, cancel, bytes) == m1
            &&& fragment_lines(m, cancel, bytes).len() == 0
            &&& error_step(m, cancel, message) == m1
            &&& end_step(m, cancel) == m1
            &&& remainder_line(m1).is_none()
            &&& finish_step(m1).notes == m.notes.push(Note::Cancelled(m.session)).push(
                Note::Complete(m.session, false),
            )
            &&& !after.remove(m.session).contains_key(m.session)
        }),
{
    assert(after.contains_key(m.session));
}

/// A malformed line between two records aborts nothing: both records are
/// published, in order.
pub proof fn lemma_malformed_line_skipped(m: RelayModel, a: ChatChunk, b: ChatChunk)
    requires
        !a.done,
    ensures
        record_step(record_step(record_step(m, Some(a)), None), Some(b)).notes == m.notes.push(
            Note::Chunk(m.session, a),
        ).push(Note::Chunk(m.session, b)),
{
}

} // verus!
