//! Terminals attached to a weaver's session.
use crate::byte_string::{bytes_part, held};
use crate::error::{LocalError, LocalErrorView};
use crate::progress::{Attempt, Progress};
use crate::text::join2;
use crate::tmux::{attach_words, TmuxSession};
use bytes::Bytes;
use vstd::prelude::*;
use vstd::string::*;

verus! {

/// How many messages wait between a terminal and its reader or writer.
pub const CHANNEL_BUFFER_SIZE: usize = 32;

/// How many bytes are read from a terminal at once.
pub const READ_BUFFER_SIZE: usize = 4096;

/// The size of a new terminal.
pub const TERMINAL_ROWS: u16 = 24;

pub const TERMINAL_COLS: u16 = 80;

/// What a terminal gave, as it is passed on to the reader.
#[derive(Debug)]
pub struct Forward {
    pub bytes: Bytes,
    /// Whether nothing comes after it.
    pub last: bool,
}

/// What arrives at the reader of a terminal.
#[derive(Debug)]
pub enum Received {
    /// Bytes; none at the end.
    Bytes(Bytes),
    /// Reading failed.
    Failed,
    /// Nothing will arrive any more.
    Closed,
    /// Nothing has arrived yet.
    Pending,
}

/// What a reader is given.
#[derive(Debug)]
pub enum ReadOutcome {
    /// Bytes; none at the end, or where there is no room for any.
    Ready(Bytes),
    /// The error with which reading failed.
    Failed,
    /// Nothing yet.
    Pending,
}

/// The reading end of a terminal: what has arrived and was not read yet.
#[derive(Debug)]
pub struct PtyAsyncReader {
    pub buffer: Bytes,
}

impl View for PtyAsyncReader {
    type V = Seq<u8>;

    open spec fn view(&self) -> Seq<u8> {
        held(self.buffer)
    }
}

/// How much of `len` bytes is read at once by one who has room for `room`.
pub open spec fn read_len(len: nat, room: nat) -> nat {
    if len <= room {
        len
    } else {
        room
    }
}

impl PtyAsyncReader {
    /// A reader that has received nothing.
    pub fn new() -> (reader: Self)
        ensures
            reader@ == Seq::<u8>::empty(),
    {
        PtyAsyncReader { buffer: Bytes::new() }
    }

    /// What is passed on when a terminal has filled the first `n` bytes of a
    /// buffer. No bytes at all mean that the terminal is closed.
    pub fn forward(buf: &[u8], n: usize) -> (forward: Forward)
        requires
            n <= buf@.len(),
        ensures
            held(forward.bytes) == buf@.take(n as int),
            forward.last == (n == 0),
    {
        if n == 0 {
            let forward = Forward { bytes: Bytes::new(), last: true };
            assert(held(forward.bytes) =~= buf@.take(0));
            return forward;
        }
        let filled = vstd::slice::slice_subrange(buf, 0, n);
        assert(filled@ =~= buf@.take(n as int));
        Forward { bytes: Bytes::copy_from_slice(filled), last: false }
    }

    /// Gives the first of `bytes` to one who has room for `room` of them, and
    /// keeps the others.
    fn give(&mut self, bytes: &Bytes, room: usize) -> (given: Bytes)
        ensures
            held(given) == held(*bytes).take(read_len(held(*bytes).len(), room as nat) as int),
            final(self)@ == held(*bytes).skip(read_len(held(*bytes).len(), room as nat) as int),
    {
        let len = bytes.len();
        let n = if len <= room {
            len
        } else {
            room
        };
        self.buffer = bytes_part(bytes, n, len);
        let given = bytes_part(bytes, 0, n);
        assert(held(given) =~= held(*bytes).take(n as int));
        assert(self@ =~= held(*bytes).skip(n as int));
        given
    }

    /// Reads what arrived earlier, as far as there is room. There is no answer
    /// if nothing is left of it: then the reader must look for what arrives.
    pub fn poll_buffered(&mut self, room: usize) -> (outcome: Option<ReadOutcome>)
        ensures
            match outcome {
                None => old(self)@.len() == 0 && final(self)@ == old(self)@,
                Some(outcome) => {
                    let n = read_len(old(self)@.len(), room as nat) as int;
                    &&& old(self)@.len() > 0
                    &&& outcome is Ready
                    &&& held(outcome->Ready_0) == old(self)@.take(n)
                    &&& final(self)@ == old(self)@.skip(n)
                },
            },
    {
        if self.buffer.is_empty() {
            return None;
        }
        let len = self.buffer.len();
        let whole = bytes_part(&self.buffer, 0, len);
        assert(held(whole) =~= self@);
        Some(ReadOutcome::Ready(self.give(&whole, room)))
    }

    /// Reads what has just arrived, as far as there is room, once all that
    /// arrived earlier is read.
    pub fn poll_received(&mut self, room: usize, received: Received) -> (outcome: ReadOutcome)
        requires
            old(self)@.len() == 0,
        ensures
            match received {
                Received::Bytes(bytes) => {
                    let n = read_len(held(bytes).len(), room as nat) as int;
                    &&& outcome is Ready
                    &&& held(outcome->Ready_0) == held(bytes).take(n)
                    &&& final(self)@ == held(bytes).skip(n)
                },
                Received::Failed => outcome is Failed && final(self)@ == old(self)@,
                Received::Closed => outcome is Ready && held(outcome->Ready_0).len() == 0
                    && final(self)@ == old(self)@,
                Received::Pending => outcome is Pending && final(self)@ == old(self)@,
            },
    {
        match received {
            Received::Bytes(bytes) => ReadOutcome::Ready(self.give(&bytes, room)),
            Received::Failed => ReadOutcome::Failed,
            Received::Closed => ReadOutcome::Ready(Bytes::new()),
            Received::Pending => ReadOutcome::Pending,
        }
    }
}

/// Whatever room a reader has, what it was given and what is kept for it are, in
/// this order, all that has arrived: nothing is lost, doubled or moved. And a
/// reader who has room makes progress.
pub proof fn law_reading_keeps_the_bytes(
    given: Seq<u8>,
    kept: Seq<u8>,
    arrived: Seq<u8>,
    room: nat,
)
    requires
        given + kept == arrived,
    ensures
        ({
            let n = read_len(kept.len(), room) as int;
            &&& (given + kept.take(n)) + kept.skip(n) == arrived
            &&& kept.len() > 0 && room > 0 ==> kept.skip(n).len() < kept.len()
        }),
{
    let n = read_len(kept.len(), room) as int;
    assert(kept.take(n) + kept.skip(n) =~= kept);
    assert((given + kept.take(n)) + kept.skip(n) =~= given + kept);
}

/// How asking for a place among the messages to a terminal ended.
#[derive(Debug, Clone, Copy, PartialEq, Eq, Structural)]
pub enum Reserve {
    Granted,
    /// The terminal takes no more messages.
    Closed,
    /// There is no place at the moment.
    Full,
}

/// How a message stands that had to wait for a place.
#[derive(Debug, Clone, Copy, PartialEq, Eq, Structural)]
pub enum Waiting {
    Sent,
    Closed,
    Pending,
}

/// What a writer does next.
#[derive(Debug)]
pub enum WriteOutcome {
    /// It sends the bytes in the place that it has got, and is done with all of
    /// them.
    Send { bytes: Bytes, len: usize },
    /// It lets the bytes wait for a place.
    Queue { bytes: Bytes },
    /// All bytes are written.
    Written { len: usize },
    /// The terminal is closed.
    Broken { message: String },
    /// Nothing is written yet.
    Pending,
}

/// The writing end of a terminal.
#[derive(Debug)]
pub struct PtyAsyncWriter;

impl PtyAsyncWriter {
    /// A writer.
    pub fn new() -> (writer: Self) {
        PtyAsyncWriter
    }

    /// Writes bytes, either all of them or none. The message waits only where no
    /// place was granted; `waiting` is how it stands then.
    pub fn poll_write(&self, buf: &[u8], reserve: Reserve, waiting: Option<Waiting>) -> (outcome:
        WriteOutcome)
        ensures
            match reserve {
                Reserve::Granted => outcome matches WriteOutcome::Send { bytes, len } && held(bytes)
                    == buf@ && len == buf@.len(),
                Reserve::Closed => outcome matches WriteOutcome::Broken { message } && message@
                    == "pty writer closed"@,
                Reserve::Full => match waiting {
                    None => outcome matches WriteOutcome::Queue { bytes } && held(bytes) == buf@,
                    Some(Waiting::Sent) => outcome matches WriteOutcome::Written { len } && len
                        == buf@.len(),
                    Some(Waiting::Closed) => outcome matches WriteOutcome::Broken { message }
                        && message@ == "pty writer closed"@,
                    Some(Waiting::Pending) => outcome is Pending,
                },
            },
    {
        match reserve {
            Reserve::Granted => {
                let bytes = Bytes::copy_from_slice(buf);
                let len = bytes.len();
                WriteOutcome::Send { bytes, len }
            },
            Reserve::Closed => WriteOutcome::Broken { message: "pty writer closed".to_owned() },
            Reserve::Full => match waiting {
                None => WriteOutcome::Queue { bytes: Bytes::copy_from_slice(buf) },
                Some(Waiting::Sent) => WriteOutcome::Written { len: buf.len() },
                Some(Waiting::Closed) => WriteOutcome::Broken {
                    message: "pty writer closed".to_owned(),
                },
                Some(Waiting::Pending) => WriteOutcome::Pending,
            },
        }
    }
}

/// A terminal attached to a session, with its two ends.
#[derive(Debug)]
pub struct PtyProcess {
    pub reader: PtyAsyncReader,
    pub writer: PtyAsyncWriter,
}

/// A [`PtyProcess`] as what its reader holds and its writer.
pub struct ProcessView {
    pub reader: Seq<u8>,
    pub writer: PtyAsyncWriter,
}

impl View for PtyProcess {
    type V = ProcessView;

    open spec fn view(&self) -> ProcessView {
        ProcessView { reader: self.reader@, writer: self.writer }
    }
}

/// What is known while a terminal is attached.
#[derive(Debug)]
pub struct AttachFacts {
    pub opened: Option<Attempt>,
    pub spawned: Option<Attempt>,
    pub reader: Option<Attempt>,
    pub writer: Option<Attempt>,
}

/// What attaching a terminal can ask for.
#[derive(Debug)]
pub enum AttachStep {
    /// A terminal of the given size.
    OpenPty { rows: u16, cols: u16 },
    /// A call of tmux, run in the terminal.
    Spawn { call: Vec<String> },
    /// The reading end of the terminal.
    CloneReader,
    /// The writing end of the terminal.
    TakeWriter,
}

/// An [`AttachStep`] as text.
pub enum AttachStepView {
    OpenPty { rows: u16, cols: u16 },
    Spawn { call: Seq<Seq<char>> },
    CloneReader,
    TakeWriter,
}

impl View for AttachStep {
    type V = AttachStepView;

    open spec fn view(&self) -> AttachStepView {
        match self {
            AttachStep::OpenPty { rows, cols } => AttachStepView::OpenPty {
                rows: *rows,
                cols: *cols,
            },
            AttachStep::Spawn { call } => AttachStepView::Spawn { call: call.deep_view() },
            AttachStep::CloneReader => AttachStepView::CloneReader,
            AttachStep::TakeWriter => AttachStepView::TakeWriter,
        }
    }
}

/// What comes of an attempt: the next step if it was not made yet, an error that
/// says what failed, or what follows.
pub open spec fn attempting(
    attempt: Option<Attempt>,
    step: AttachStepView,
    what: Seq<char>,
    next: Progress<AttachStepView, ProcessView, LocalErrorView>,
) -> Progress<AttachStepView, ProcessView, LocalErrorView> {
    match attempt {
        None => Progress::Need(step),
        Some(Attempt::Failed(reason)) => Progress::Done(
            Err(LocalErrorView::PtyError { message: what + reason@ }),
        ),
        Some(Attempt::Succeeded) => next,
    }
}

/// Attaching a terminal to a session: open it, run tmux in it, and take its two
/// ends. Its reader has received nothing then.
pub open spec fn attaching(session: Seq<char>, facts: AttachFacts) -> Progress<
    AttachStepView,
    ProcessView,
    LocalErrorView,
> {
    let opening = AttachStepView::OpenPty { rows: TERMINAL_ROWS, cols: TERMINAL_COLS };
    let spawning = AttachStepView::Spawn { call: attach_words(session) };
    let attached = Progress::Done(
        Ok(ProcessView { reader: Seq::empty(), writer: PtyAsyncWriter }),
    );
    attempting(
        facts.opened,
        opening,
        "failed to open pty: "@,
        attempting(
            facts.spawned,
            spawning,
            "failed to spawn tmux attach: "@,
            attempting(
                facts.reader,
                AttachStepView::CloneReader,
                "failed to clone reader: "@,
                attempting(
                    facts.writer,
                    AttachStepView::TakeWriter,
                    "failed to take writer: "@,
                    attached,
                ),
            ),
        ),
    )
}

fn pty_failure(what: &str, reason: &str) -> (error: LocalError)
    ensures
        error@ == (LocalErrorView::PtyError { message: what@ + reason@ }),
{
    LocalError::PtyError { message: join2(what, reason) }
}

impl PtyProcess {
    /// Attaches a terminal to a session. Its reader has received nothing yet.
    pub fn spawn_tmux_attach(session_name: &str, facts: &AttachFacts) -> (progress: Progress<
        AttachStep,
        PtyProcess,
        LocalError,
    >)
        ensures
            progress@ == attaching(session_name@, *facts),
    {
        match &facts.opened {
            None => {
                return Progress::Need(
                    AttachStep::OpenPty { rows: TERMINAL_ROWS, cols: TERMINAL_COLS },
                );
            },
            Some(Attempt::Failed(reason)) => {
                return Progress::Done(Err(pty_failure("failed to open pty: ", reason.as_str())));
            },
            Some(Attempt::Succeeded) => {},
        }
        match &facts.spawned {
            None => {
                let session = TmuxSession::new(session_name.to_owned());
                return Progress::Need(AttachStep::Spawn { call: session.attach_command() });
            },
            Some(Attempt::Failed(reason)) => {
                return Progress::Done(
                    Err(pty_failure("failed to spawn tmux attach: ", reason.as_str())),
                );
            },
            Some(Attempt::Succeeded) => {},
        }
        match &facts.reader {
            None => {
                return Progress::Need(AttachStep::CloneReader);
            },
            Some(Attempt::Failed(reason)) => {
                return Progress::Done(
                    Err(pty_failure("failed to clone reader: ", reason.as_str())),
                );
            },
            Some(Attempt::Succeeded) => {},
        }
        match &facts.writer {
            None => Progress::Need(AttachStep::TakeWriter),
            Some(Attempt::Failed(reason)) => Progress::Done(
                Err(pty_failure("failed to take writer: ", reason.as_str())),
            ),
            Some(Attempt::Succeeded) => Progress::Done(
                Ok(PtyProcess { reader: PtyAsyncReader::new(), writer: PtyAsyncWriter::new() }),
            ),
        }
    }
}

/// A reader is given as much as there is and as it has room for: never more than
/// either, and no less than one of the two.
pub proof fn law_reader_is_given_all_it_has_room_for(len: nat, room: nat)
    ensures
        read_len(len, room) <= len,
        read_len(len, room) <= room,
        read_len(len, room) == len || read_len(len, room) == room,
{
}

/// What attaching a terminal asks for: a terminal of 24 rows and 80 columns, tmux
/// attached to the session in it, its reading end and its writing end, one after the
/// other. Whatever fails is told with its reason.
pub proof fn law_attaching_shows_the_session(session: Seq<char>, facts: AttachFacts)
    ensures
        match attaching(session, facts) {
            Progress::Need(AttachStepView::OpenPty { rows, cols }) => rows == 24 && cols == 80,
            Progress::Need(AttachStepView::Spawn { call }) => call =~= seq![
                "attach-session"@,
                "-t"@,
                session,
            ] && facts.opened == Some(Attempt::Succeeded),
            Progress::Need(AttachStepView::CloneReader) => facts.spawned == Some(
                Attempt::Succeeded,
            ),
            Progress::Need(AttachStepView::TakeWriter) => facts.reader == Some(Attempt::Succeeded),
            Progress::Done(Ok(process)) => process.reader.len() == 0 && facts.opened == Some(
                Attempt::Succeeded,
            ) && facts.spawned == Some(Attempt::Succeeded) && facts.reader == Some(
                Attempt::Succeeded,
            ) && facts.writer == Some(Attempt::Succeeded),
            Progress::Done(Err(LocalErrorView::PtyError { message })) => {
                ||| facts.opened matches Some(Attempt::Failed(why)) && message
                    == "failed to open pty: "@ + why@
                ||| facts.spawned matches Some(Attempt::Failed(why)) && message
                    == "failed to spawn tmux attach: "@ + why@
                ||| facts.reader matches Some(Attempt::Failed(why)) && message
                    == "failed to clone reader: "@ + why@
                ||| facts.writer matches Some(Attempt::Failed(why)) && message
                    == "failed to take writer: "@ + why@
            },
            Progress::Done(Err(_)) => false,
        },
        facts.opened == Some(Attempt::Succeeded) && facts.spawned == Some(Attempt::Succeeded)
            && facts.reader == Some(Attempt::Succeeded) && facts.writer == Some(Attempt::Succeeded)
            ==> (attaching(session, facts) matches Progress::Done(Ok(_))),
{
}

/// Terminals are seen as they are.
pub proof fn law_terminals_are_seen_as_they_are(process: PtyProcess, step: AttachStep)
    ensures
        process@.reader == held(process.reader.buffer),
        process@.writer == process.writer,
        match step {
            AttachStep::OpenPty { rows, cols } => step@ == (AttachStepView::OpenPty { rows, cols }),
            AttachStep::Spawn { call } => step@ == (AttachStepView::Spawn {
                call: call.deep_view(),
            }),
            AttachStep::CloneReader => step@ is CloneReader,
            AttachStep::TakeWriter => step@ is TakeWriter,
        },
{
}

} // verus!
