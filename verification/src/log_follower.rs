//! Following the log of a weaver as it grows.
use crate::byte_string::{bytes_from, held};
use crate::error::LocalErrorView;
use crate::progress::{Attempt, Progress, Run};
use crate::tmux::{has_session_words, presence, TmuxSession};
use bytes::Bytes;
use vstd::prelude::*;

verus! {

/// The byte at the end of a line.
pub const NEWLINE: u8 = 10;

/// How many milliseconds a follower waits before it looks at the log again, if
/// nothing tells it to look earlier.
pub const POLL_MILLIS: u64 = 500;

/// Where lines start, as far as the first `n` bytes show it. A newline at the very
/// end starts no line.
pub open spec fn starts_within(content: Seq<u8>, n: nat) -> Seq<int>
    decreases n,
{
    if n == 0 {
        seq![0]
    } else {
        let before = starts_within(content, (n - 1) as nat);
        if n < content.len() && content[n - 1] == NEWLINE {
            before.push(n as int)
        } else {
            before
        }
    }
}

/// Where the lines of a log start.
pub open spec fn line_starts(content: Seq<u8>) -> Seq<int> {
    starts_within(content, content.len())
}

/// Where the last `tail_lines` lines of a log start. No lines asked for mean all.
pub open spec fn tail_start(content: Seq<u8>, tail_lines: nat) -> int {
    let starts = line_starts(content);
    if tail_lines == 0 || starts.len() <= tail_lines {
        0
    } else {
        starts[starts.len() - tail_lines]
    }
}

/// Where the last `tail_lines` lines of a log start.
pub fn find_tail(content: &[u8], tail_lines: u64) -> (start: u64)
    ensures
        start == tail_start(content@, tail_lines as nat),
        start <= content@.len(),
{
    proof {
        lemma_starts(content@, content@.len());
    }
    if tail_lines == 0 {
        return 0;
    }
    let mut starts: Vec<usize> = Vec::new();
    starts.push(0);
    let mut i: usize = 0;
    assert(starts@.map_values(|p: usize| p as int) =~= starts_within(content@, 0));
    while i < content.len()
        invariant
            i <= content@.len(),
            starts@.map_values(|p: usize| p as int) == starts_within(content@, i as nat),
        decreases content@.len() - i,
    {
        let ghost before = starts@;
        if i + 1 < content.len() && content[i] == NEWLINE {
            starts.push(i + 1);
            assert(starts@.map_values(|p: usize| p as int) =~= before.map_values(
                |p: usize| p as int,
            ).push(i + 1));
        }
        i = i + 1;
    }
    let ghost all = line_starts(content@);
    assert(all == starts@.map_values(|p: usize| p as int));
    assert(all.len() == starts@.len());
    let total = starts.len();
    if total as u64 <= tail_lines {
        return 0;
    }
    let skip = total - tail_lines as usize;
    assert(all[skip as int] == starts@[skip as int]);
    starts[skip] as u64
}

proof fn lemma_starts(content: Seq<u8>, n: nat)
    requires
        n <= content.len(),
    ensures
        starts_within(content, n).len() >= 1,
        starts_within(content, n)[0] == 0,
        forall|i: int|
            0 < i < starts_within(content, n).len() ==> {
                let start = #[trigger] starts_within(content, n)[i];
                0 < start <= n && start < content.len() && content[start - 1] == NEWLINE
            },
        forall|i: int, j: int|
            0 <= i < j < starts_within(content, n).len() ==> #[trigger] starts_within(content, n)[i]
                < #[trigger] starts_within(content, n)[j],
    decreases n,
{
    if n > 0 {
        lemma_starts(content, (n - 1) as nat);
        let before = starts_within(content, (n - 1) as nat);
        let after = starts_within(content, n);
        assert forall|i: int| 0 < i < after.len() implies {
            let start = #[trigger] after[i];
            0 < start <= n && start < content.len() && content[start - 1] == NEWLINE
        } by {
            if i < before.len() {
                assert(after[i] == before[i]);
            }
        }
        assert forall|i: int, j: int| 0 <= i < j < after.len() implies #[trigger] after[i]
            < #[trigger] after[j] by {
            assert(after[i] == before[i]);
            if j < before.len() {
                assert(after[j] == before[j]);
            } else if i > 0 {
                assert(before[i] <= n - 1);
            }
        }
    }
}

proof fn lemma_starts_prefix(content: Seq<u8>, m: nat, n: nat)
    requires
        m <= n,
    ensures
        starts_within(content, m).len() <= starts_within(content, n).len(),
        forall|i: int|
            0 <= i < starts_within(content, m).len() ==> #[trigger] starts_within(content, m)[i]
                == starts_within(content, n)[i],
    decreases n - m,
{
    if m < n {
        lemma_starts_prefix(content, m, (n - 1) as nat);
    }
}

/// Among the starts found up to and with the start of a line, that one is last.
proof fn lemma_start_is_reached(content: Seq<u8>, k: int)
    requires
        0 <= k < line_starts(content).len(),
    ensures
        0 <= line_starts(content)[k] <= content.len(),
        starts_within(content, line_starts(content)[k] as nat).len() == k + 1,
{
    let all = line_starts(content);
    lemma_starts(content, content.len());
    let p = all[k];
    if k > 0 {
        assert(0 < p < content.len() && content[p - 1] == NEWLINE);
    }
    let upto = starts_within(content, p as nat);
    lemma_starts_prefix(content, p as nat, content.len());
    assert(upto.last() == p);
    assert(all[upto.len() - 1] == p);
    if upto.len() - 1 < k {
        assert(all[upto.len() - 1] < all[k]);
    }
    if k < upto.len() - 1 {
        assert(all[k] < all[upto.len() - 1]);
    }
}

proof fn lemma_starts_of_rest(content: Seq<u8>, p: nat, m: nat)
    requires
        p < content.len() || p == 0,
        p + m <= content.len(),
    ensures
        starts_within(content.skip(p as int), m).len() + starts_within(content, p).len()
            == starts_within(content, p + m).len() + 1,
    decreases m,
{
    if m > 0 {
        lemma_starts_of_rest(content, p, (m - 1) as nat);
        let rest = content.skip(p as int);
        assert(rest[m - 1] == content[p + m - 1]);
        assert(rest.len() == content.len() - p);
    }
}

/// The tail of a log is made of whole lines: it starts where the log starts or
/// just after a newline. It has as many lines as were asked for, or all if there
/// are no more.
pub proof fn law_tail_is_whole_lines(content: Seq<u8>, tail_lines: nat)
    requires
        tail_lines > 0,
    ensures
        ({
            let start = tail_start(content, tail_lines);
            let total = line_starts(content).len();
            &&& 0 <= start <= content.len()
            &&& start > 0 ==> content[start - 1] == NEWLINE
            &&& line_starts(content.skip(start)).len() == if total <= tail_lines {
                total
            } else {
                tail_lines
            }
        }),
{
    let starts = line_starts(content);
    lemma_starts(content, content.len());
    if starts.len() <= tail_lines {
        assert(content.skip(0) =~= content);
    } else {
        let k = starts.len() - tail_lines;
        let p = starts[k];
        lemma_start_is_reached(content, k);
        lemma_starts_of_rest(content, p as nat, (content.len() - p) as nat);
    }
}

/// What is known while a follower is set up.
#[derive(Debug)]
pub struct FollowFacts {
    /// The length of the log, once it is open.
    pub opened: Option<Result<u64, String>>,
    /// What the log holds.
    pub content: Option<Result<Vec<u8>, String>>,
    pub reopened: Option<Attempt>,
    pub watched: Option<Attempt>,
}

/// What setting up a follower can ask for.
#[derive(Debug)]
pub enum FollowStep {
    /// The log opened, and its length.
    Open { path: String },
    /// All that the log holds.
    ReadAll,
    /// The log opened anew, at a position.
    Reopen { path: String, position: u64 },
    /// Notice of changes to the log.
    Watch { path: String },
}

/// A [`FollowStep`] as text.
pub enum FollowStepView {
    Open { path: Seq<char> },
    ReadAll,
    Reopen { path: Seq<char>, position: int },
    Watch { path: Seq<char> },
}

impl View for FollowStep {
    type V = FollowStepView;

    open spec fn view(&self) -> FollowStepView {
        match self {
            FollowStep::Open { path } => FollowStepView::Open { path: path@ },
            FollowStep::ReadAll => FollowStepView::ReadAll,
            FollowStep::Reopen { path, position } => FollowStepView::Reopen {
                path: path@,
                position: *position as int,
            },
            FollowStep::Watch { path } => FollowStepView::Watch { path: path@ },
        }
    }
}

/// A follower of a log: how far it has read, and the session that writes it.
#[derive(Debug)]
pub struct LogFollower {
    pub position: u64,
    pub session_name: String,
}

/// A [`LogFollower`] as text.
pub struct FollowerView {
    pub position: int,
    pub session_name: Seq<char>,
}

impl View for LogFollower {
    type V = FollowerView;

    open spec fn view(&self) -> FollowerView {
        FollowerView { position: self.position as int, session_name: self.session_name@ }
    }
}

/// Having the log watched from a position on.
pub open spec fn watching(
    path: Seq<char>,
    session: Seq<char>,
    position: int,
    facts: FollowFacts,
) -> Progress<FollowStepView, FollowerView, Seq<char>> {
    match facts.watched {
        None => Progress::Need(FollowStepView::Watch { path }),
        Some(Attempt::Failed(reason)) => Progress::Done(Err(reason@)),
        Some(Attempt::Succeeded) => Progress::Done(
            Ok(FollowerView { position, session_name: session }),
        ),
    }
}

/// Setting up a follower: open the log, find where its tail starts if one is
/// asked for, and have the log watched.
pub open spec fn following(
    path: Seq<char>,
    session: Seq<char>,
    tail_lines: nat,
    facts: FollowFacts,
) -> Progress<FollowStepView, FollowerView, Seq<char>> {
    match facts.opened {
        None => Progress::Need(FollowStepView::Open { path }),
        Some(Err(reason)) => Progress::Done(Err(reason@)),
        Some(Ok(len)) => if tail_lines == 0 || len == 0 {
            watching(path, session, 0, facts)
        } else {
            match facts.content {
                None => Progress::Need(FollowStepView::ReadAll),
                Some(Err(reason)) => Progress::Done(Err(reason@)),
                Some(Ok(content)) => {
                    let position = tail_start(content@, tail_lines);
                    match facts.reopened {
                        None => Progress::Need(FollowStepView::Reopen { path, position }),
                        Some(Attempt::Failed(reason)) => Progress::Done(Err(reason@)),
                        Some(Attempt::Succeeded) => watching(path, session, position, facts),
                    }
                },
            }
        },
    }
}

/// Why a wait ended.
#[derive(Debug, Clone, Copy, PartialEq, Eq, Structural)]
pub enum Wake {
    /// The log changed.
    Changed,
    /// The time is over.
    TimedOut,
    /// No more changes will be noticed.
    Closed,
}

/// What is known while a follower looks for the next chunk once.
#[derive(Debug)]
pub struct ChunkFacts {
    /// The length of the log.
    pub len: Option<Result<u64, String>>,
    pub read: Option<Result<Vec<u8>, String>>,
    pub session: Option<Run>,
    /// The length of the log when its session is gone.
    pub last_len: Option<Result<u64, String>>,
    pub last_read: Option<Result<Vec<u8>, String>>,
    pub wake: Option<Wake>,
}

/// What looking for the next chunk can ask for.
#[derive(Debug)]
pub enum ChunkStep {
    /// The length of the log.
    Measure,
    /// At most `len` bytes of the log, from `position` on.
    Read { position: u64, len: u64 },
    /// A call of tmux that finds the session.
    FindSession { call: Vec<String> },
    /// The length of the log, once more.
    MeasureLast,
    /// At most `len` bytes of the log, from `position` on.
    ReadLast { position: u64, len: u64 },
    /// A change of the log, or so many milliseconds to pass.
    Wait { millis: u64 },
}

/// A [`ChunkStep`] as text.
pub enum ChunkStepView {
    Measure,
    Read { position: int, len: int },
    FindSession { call: Seq<Seq<char>> },
    MeasureLast,
    ReadLast { position: int, len: int },
    Wait { millis: int },
}

impl View for ChunkStep {
    type V = ChunkStepView;

    open spec fn view(&self) -> ChunkStepView {
        match self {
            ChunkStep::Measure => ChunkStepView::Measure,
            ChunkStep::Read { position, len } => ChunkStepView::Read {
                position: *position as int,
                len: *len as int,
            },
            ChunkStep::FindSession { call } => ChunkStepView::FindSession {
                call: call.deep_view(),
            },
            ChunkStep::MeasureLast => ChunkStepView::MeasureLast,
            ChunkStep::ReadLast { position, len } => ChunkStepView::ReadLast {
                position: *position as int,
                len: *len as int,
            },
            ChunkStep::Wait { millis } => ChunkStepView::Wait { millis: *millis as int },
        }
    }
}

/// What came of looking for the next chunk.
#[derive(Debug)]
pub enum Chunk {
    /// The next bytes of the log.
    Data(Bytes),
    /// The log is complete.
    End,
    /// Nothing yet: look again.
    Again,
}

/// A [`Chunk`] as bytes.
pub enum ChunkView {
    Data(Seq<u8>),
    End,
    Again,
}

impl View for Chunk {
    type V = ChunkView;

    open spec fn view(&self) -> ChunkView {
        match self {
            Chunk::Data(bytes) => ChunkView::Data(held(*bytes)),
            Chunk::End => ChunkView::End,
            Chunk::Again => ChunkView::Again,
        }
    }
}

/// As much of what was read as was asked for.
pub open spec fn as_asked(read: Seq<u8>, asked: int) -> Seq<u8> {
    if read.len() <= asked {
        read
    } else {
        read.take(asked)
    }
}

/// Waiting until there is reason to look again.
pub open spec fn resting(facts: ChunkFacts) -> Progress<ChunkStepView, ChunkView, Seq<char>> {
    match facts.wake {
        None => Progress::Need(ChunkStepView::Wait { millis: POLL_MILLIS as int }),
        Some(Wake::Closed) => Progress::Done(Ok(ChunkView::End)),
        Some(_) => Progress::Done(Ok(ChunkView::Again)),
    }
}

/// Reading what is left of a log whose session is gone.
pub open spec fn draining(position: int, facts: ChunkFacts) -> Progress<
    ChunkStepView,
    ChunkView,
    Seq<char>,
> {
    match facts.last_len {
        None => Progress::Need(ChunkStepView::MeasureLast),
        Some(Err(reason)) => Progress::Done(Err(reason@)),
        Some(Ok(len)) => if len <= position {
            Progress::Done(Ok(ChunkView::End))
        } else {
            match facts.last_read {
                None => Progress::Need(ChunkStepView::ReadLast { position, len: len - position }),
                Some(Err(reason)) => Progress::Done(Err(reason@)),
                Some(Ok(read)) => {
                    let bytes = as_asked(read@, len - position);
                    if bytes.len() > 0 {
                        Progress::Done(Ok(ChunkView::Data(bytes)))
                    } else {
                        Progress::Done(Ok(ChunkView::End))
                    }
                },
            }
        },
    }
}

/// Finding out whether more is to come. A session that cannot be asked about
/// counts as one that still runs.
pub open spec fn lingering(follower: FollowerView, facts: ChunkFacts) -> Progress<
    ChunkStepView,
    ChunkView,
    Seq<char>,
> {
    match facts.session {
        None => Progress::Need(
            ChunkStepView::FindSession { call: has_session_words(follower.session_name) },
        ),
        Some(run) => match presence(run) {
            Ok(false) => draining(follower.position, facts),
            _ => resting(facts),
        },
    }
}

/// Looking for the next chunk once: what the log holds beyond the position, else
/// whether more is to come.
pub open spec fn looking(follower: FollowerView, facts: ChunkFacts) -> Progress<
    ChunkStepView,
    ChunkView,
    Seq<char>,
> {
    let position = follower.position;
    match facts.len {
        None => Progress::Need(ChunkStepView::Measure),
        Some(Err(reason)) => Progress::Done(Err(reason@)),
        Some(Ok(len)) => if len <= position {
            lingering(follower, facts)
        } else {
            match facts.read {
                None => Progress::Need(ChunkStepView::Read { position, len: len - position }),
                Some(Err(reason)) => Progress::Done(Err(reason@)),
                Some(Ok(read)) => {
                    let bytes = as_asked(read@, len - position);
                    if bytes.len() > 0 {
                        Progress::Done(Ok(ChunkView::Data(bytes)))
                    } else {
                        lingering(follower, facts)
                    }
                },
            }
        },
    }
}

/// How far a follower has read once it has looked for the next chunk.
pub open spec fn moved(
    position: int,
    progress: Progress<ChunkStepView, ChunkView, Seq<char>>,
) -> int {
    match progress {
        Progress::Done(Ok(ChunkView::Data(bytes))) => position + bytes.len(),
        _ => position,
    }
}

fn cut(read: &Vec<u8>, asked: u64) -> (bytes: Vec<u8>)
    ensures
        bytes@ == as_asked(read@, asked as int),
{
    let mut bytes = read.clone();
    assert(bytes@ =~= read@);
    if bytes.len() as u64 > asked {
        bytes.truncate(asked as usize);
    }
    bytes
}

impl LogFollower {
    /// Sets up a follower that starts with the last `tail_lines` lines of the
    /// log, or with all of it if none are asked for.
    pub fn new(
        log_path: &str,
        session_name: String,
        tail_lines: u64,
        facts: &FollowFacts,
    ) -> (progress: Progress<FollowStep, LogFollower, String>)
        ensures
            progress@ == following(log_path@, session_name@, tail_lines as nat, *facts),
    {
        let len: u64 = match &facts.opened {
            None => {
                return Progress::Need(FollowStep::Open { path: log_path.to_owned() });
            },
            Some(Err(reason)) => {
                return Progress::Done(Err(reason.clone()));
            },
            Some(Ok(len)) => *len,
        };
        let mut position: u64 = 0;
        if tail_lines > 0 && len > 0 {
            match &facts.content {
                None => {
                    return Progress::Need(FollowStep::ReadAll);
                },
                Some(Err(reason)) => {
                    return Progress::Done(Err(reason.clone()));
                },
                Some(Ok(content)) => {
                    position = find_tail(content.as_slice(), tail_lines);
                },
            }
            match &facts.reopened {
                None => {
                    return Progress::Need(
                        FollowStep::Reopen { path: log_path.to_owned(), position },
                    );
                },
                Some(Attempt::Failed(reason)) => {
                    return Progress::Done(Err(reason.clone()));
                },
                Some(Attempt::Succeeded) => {},
            }
        }
        match &facts.watched {
            None => Progress::Need(FollowStep::Watch { path: log_path.to_owned() }),
            Some(Attempt::Failed(reason)) => Progress::Done(Err(reason.clone())),
            Some(Attempt::Succeeded) => Progress::Done(Ok(LogFollower { position, session_name })),
        }
    }

    fn drain(&mut self, facts: &ChunkFacts) -> (progress: Progress<ChunkStep, Chunk, String>)
        ensures
            progress@ == draining(old(self)@.position, *facts),
            final(self)@.session_name == old(self)@.session_name,
            final(self)@.position == moved(
                old(self)@.position,
                draining(old(self)@.position, *facts),
            ),
    {
        let len: u64 = match &facts.last_len {
            None => {
                return Progress::Need(ChunkStep::MeasureLast);
            },
            Some(Err(reason)) => {
                return Progress::Done(Err(reason.clone()));
            },
            Some(Ok(len)) => *len,
        };
        if len <= self.position {
            return Progress::Done(Ok(Chunk::End));
        }
        let asked: u64 = len - self.position;
        match &facts.last_read {
            None => Progress::Need(ChunkStep::ReadLast { position: self.position, len: asked }),
            Some(Err(reason)) => Progress::Done(Err(reason.clone())),
            Some(Ok(read)) => {
                let bytes = cut(read, asked);
                if bytes.len() == 0 {
                    return Progress::Done(Ok(Chunk::End));
                }
                self.position = self.position + bytes.len() as u64;
                Progress::Done(Ok(Chunk::Data(bytes_from(bytes))))
            },
        }
    }

    /// Looks for the next chunk of the log once. The position moves behind the
    /// chunk.
    pub fn next_chunk(&mut self, facts: &ChunkFacts) -> (progress: Progress<
        ChunkStep,
        Chunk,
        String,
    >)
        ensures
            progress@ == looking(old(self)@, *facts),
            final(self)@.session_name == old(self)@.session_name,
            final(self)@.position == moved(old(self)@.position, looking(old(self)@, *facts)),
    {
        let len: u64 = match &facts.len {
            None => {
                return Progress::Need(ChunkStep::Measure);
            },
            Some(Err(reason)) => {
                return Progress::Done(Err(reason.clone()));
            },
            Some(Ok(len)) => *len,
        };
        if len > self.position {
            let asked: u64 = len - self.position;
            match &facts.read {
                None => {
                    return Progress::Need(ChunkStep::Read { position: self.position, len: asked });
                },
                Some(Err(reason)) => {
                    return Progress::Done(Err(reason.clone()));
                },
                Some(Ok(read)) => {
                    let bytes = cut(read, asked);
                    if bytes.len() > 0 {
                        self.position = self.position + bytes.len() as u64;
                        return Progress::Done(Ok(Chunk::Data(bytes_from(bytes))));
                    }
                },
            }
        }
        let session = TmuxSession::new(self.session_name.clone());
        let gone = match &facts.session {
            None => {
                return Progress::Need(
                    ChunkStep::FindSession { call: session.session_exists_command() },
                );
            },
            Some(run) => match session.session_exists(run) {
                Ok(there) => !there,
                Err(_) => false,
            },
        };
        if gone {
            return self.drain(facts);
        }
        match facts.wake {
            None => Progress::Need(ChunkStep::Wait { millis: POLL_MILLIS }),
            Some(Wake::Closed) => Progress::Done(Ok(Chunk::End)),
            Some(_) => Progress::Done(Ok(Chunk::Again)),
        }
    }
}

/// Whether what was read in one look agrees with the log: from the position on,
/// no more than was there.
pub open spec fn reads_agree(log: Seq<u8>, position: int, facts: ChunkFacts) -> bool {
    &&& facts.read matches Some(Ok(read)) ==> 0 <= position && position + read@.len() <= log.len()
        && read@ == log.subrange(position, position + read@.len())
    &&& facts.last_read matches Some(Ok(read)) ==> 0 <= position && position + read@.len()
        <= log.len() && read@ == log.subrange(position, position + read@.len())
}

/// The chunks of a log follow each other without a gap and without overlap: what
/// was given from `start` on is the log up to the position, before a chunk and
/// after it.
pub proof fn law_chunks_are_contiguous(
    log: Seq<u8>,
    start: int,
    follower: FollowerView,
    given: Seq<u8>,
    facts: ChunkFacts,
    chunk: Seq<u8>,
)
    requires
        0 <= start <= follower.position <= log.len(),
        given == log.subrange(start, follower.position),
        reads_agree(log, follower.position, facts),
        looking(follower, facts) == Progress::<ChunkStepView, ChunkView, Seq<char>>::Done(
            Ok(ChunkView::Data(chunk)),
        ),
    ensures
        ({
            let position = moved(follower.position, looking(follower, facts));
            &&& follower.position < position <= log.len()
            &&& given + chunk == log.subrange(start, position)
        }),
{
    let position = follower.position;
    assert(chunk =~= log.subrange(position, position + chunk.len()));
    assert(given + chunk =~= log.subrange(start, position + chunk.len()));
}

/// A stream ends only when no more changes can be noticed, or when the session is
/// gone and nothing is left to read.
pub proof fn law_stream_ends_drained(follower: FollowerView, facts: ChunkFacts)
    requires
        looking(follower, facts) == Progress::<ChunkStepView, ChunkView, Seq<char>>::Done(
            Ok(ChunkView::End),
        ),
    ensures
        facts.session is Some,
        facts.wake == Some(Wake::Closed) || {
            &&& presence(facts.session->0) == Ok::<bool, LocalErrorView>(false)
            &&& facts.last_len is Some && facts.last_len->0 is Ok
            &&& facts.last_len->0->Ok_0 <= follower.position || (facts.last_read matches Some(
                Ok(read),
            ) && read@.len() == 0)
        },
{
}

/// How many lines a log has: one for each newline that something follows, and one
/// for what comes last.
pub open spec fn line_count(content: Seq<u8>) -> nat {
    if content.len() == 0 {
        0
    } else {
        content.drop_last().filter(|byte: u8| byte == 10).len() + 1
    }
}

proof fn lemma_starts_count_newlines(content: Seq<u8>, n: nat)
    requires
        n < content.len(),
    ensures
        starts_within(content, n).len() == content.take(n as int).filter(|byte: u8| byte == 10).len()
            + 1,
    decreases n,
{
    reveal(Seq::filter);
    let newline = |byte: u8| byte == 10;
    if n == 0 {
        assert(content.take(0) =~= Seq::empty());
    } else {
        lemma_starts_count_newlines(content, (n - 1) as nat);
        assert(content.take(n as int).drop_last() =~= content.take(n - 1));
        assert(content.take(n as int).last() == content[n - 1]);
    }
}

proof fn lemma_line_starts_count_lines(content: Seq<u8>)
    requires
        content.len() > 0,
    ensures
        line_starts(content).len() == line_count(content),
{
    let n = (content.len() - 1) as nat;
    lemma_starts_count_newlines(content, n);
    assert(content.take(n as int) =~= content.drop_last());
}

/// Whether a place in a log is where its last lines start: just after a newline or
/// at the start, with as many lines after it as are asked for, or all if the log has
/// no more.
pub open spec fn starts_the_last_lines(content: Seq<u8>, lines: nat, start: int) -> bool {
    &&& 0 <= start < content.len()
    &&& start == 0 || content[start - 1] == 10
    &&& line_count(content.skip(start)) == if line_count(content) <= lines {
        line_count(content)
    } else {
        lines
    }
}

/// There is only one place where the last lines of a log start.
pub proof fn law_last_lines_start_at_one_place(content: Seq<u8>, lines: nat, a: int, b: int)
    requires
        starts_the_last_lines(content, lines, a),
        starts_the_last_lines(content, lines, b),
    ensures
        a == b,
{
    if a < b {
        lemma_later_start_has_fewer_lines(content, a, b);
    }
    if b < a {
        lemma_later_start_has_fewer_lines(content, b, a);
    }
}

proof fn lemma_later_start_has_fewer_lines(content: Seq<u8>, a: int, b: int)
    requires
        0 <= a < b < content.len(),
        content[b - 1] == 10,
    ensures
        line_count(content.skip(a)) > line_count(content.skip(b)),
{
    let newline = |byte: u8| byte == 10;
    let from_a = content.skip(a).drop_last();
    let from_b = content.skip(b).drop_last();
    let between = content.subrange(a, b);
    assert(from_a =~= between + from_b);
    Seq::filter_distributes_over_add(between, from_b, newline);
    reveal(Seq::filter);
    assert(between.last() == 10);
    assert(between.filter(newline).len() >= 1);
}

/// A follower is set up for the session that was asked for, and starts where the last
/// lines that were asked for start; where none are asked for, or the log is empty, it
/// starts at the start.
pub proof fn law_follower_starts_at_the_last_lines(
    path: Seq<char>,
    session: Seq<char>,
    tail_lines: nat,
    facts: FollowFacts,
    follower: FollowerView,
)
    requires
        following(path, session, tail_lines, facts) == Progress::<
            FollowStepView,
            FollowerView,
            Seq<char>,
        >::Done(Ok(follower)),
    ensures
        follower.session_name == session,
        facts.opened is Some && facts.opened->0 is Ok,
        tail_lines == 0 || facts.opened->0->Ok_0 == 0 ==> follower.position == 0,
        tail_lines > 0 && facts.opened->0->Ok_0 > 0 ==> facts.content is Some && facts.content->0
            is Ok && (facts.content->0->Ok_0@.len() > 0 ==> starts_the_last_lines(
            facts.content->0->Ok_0@,
            tail_lines,
            follower.position,
        )),
{
    if tail_lines > 0 && facts.opened->0->Ok_0 > 0 {
        let content = facts.content->0->Ok_0@;
        if content.len() > 0 {
            lemma_tail_starts_the_last_lines(content, tail_lines);
        }
    }
}

proof fn lemma_tail_starts_the_last_lines(content: Seq<u8>, lines: nat)
    requires
        content.len() > 0,
        lines > 0,
    ensures
        starts_the_last_lines(content, lines, tail_start(content, lines)),
{
    let start = tail_start(content, lines);
    law_tail_is_whole_lines(content, lines);
    lemma_starts(content, content.len());
    assert(start < content.len());
    lemma_line_starts_count_lines(content);
    lemma_line_starts_count_lines(content.skip(start));
}

/// The place that is found in a log for its last lines is where they start.
pub proof fn law_tail_starts_the_last_lines(content: Seq<u8>, lines: nat)
    ensures
        lines == 0 || content.len() == 0 ==> tail_start(content, lines) == 0,
        lines > 0 && content.len() > 0 ==> starts_the_last_lines(
            content,
            lines,
            tail_start(content, lines),
        ),
{
    if lines > 0 && content.len() > 0 {
        lemma_tail_starts_the_last_lines(content, lines);
    }
}

/// What setting up a follower asks for: the log and nothing but the log, at the
/// position where the follower will start. A failure tells its reason.
pub proof fn law_following_opens_the_log(
    path: Seq<char>,
    session: Seq<char>,
    tail_lines: nat,
    facts: FollowFacts,
)
    ensures
        match following(path, session, tail_lines, facts) {
            Progress::Need(FollowStepView::Open { path: asked }) => asked == path,
            Progress::Need(FollowStepView::ReadAll) => tail_lines > 0 && (
            facts.opened matches Some(Ok(len)) && len > 0),
            Progress::Need(FollowStepView::Reopen { path: asked, position }) => asked == path
                && tail_lines > 0 && (facts.content matches Some(Ok(content)) && (content@.len() > 0
                ==> starts_the_last_lines(content@, tail_lines, position))),
            Progress::Need(FollowStepView::Watch { path: asked }) => asked == path,
            Progress::Done(Ok(_)) => facts.watched == Some(Attempt::Succeeded),
            Progress::Done(Err(reason)) => {
                ||| facts.opened matches Some(Err(why)) && reason == why@
                ||| facts.content matches Some(Err(why)) && reason == why@
                ||| facts.reopened matches Some(Attempt::Failed(why)) && reason == why@
                ||| facts.watched matches Some(Attempt::Failed(why)) && reason == why@
            },
        },
        facts.opened matches Some(Err(why)) ==> (following(
            path,
            session,
            tail_lines,
            facts,
        ) matches Progress::Done(Err(_))),
{
    if tail_lines > 0 {
        if let Some(Ok(content)) = facts.content {
            if content@.len() > 0 {
                lemma_tail_starts_the_last_lines(content@, tail_lines);
            }
        }
    }
}

/// What one look for the next chunk asks for: the length of the log; what lies beyond
/// the position, all of it and from there; the session of the weaver; once that is
/// gone, what was written last; and else half a second or a change. What was read is
/// given as it is, and a failure tells its reason.
pub proof fn law_one_look_reads_what_is_new(follower: FollowerView, facts: ChunkFacts)
    ensures
        match looking(follower, facts) {
            Progress::Need(ChunkStepView::Measure) => facts.len is None,
            Progress::Need(ChunkStepView::Read { position, len }) => position == follower.position
                && (facts.len matches Some(Ok(total)) && len == total - position && len > 0),
            Progress::Need(ChunkStepView::FindSession { call }) => call =~= seq![
                "has-session"@,
                "-t"@,
                follower.session_name,
            ],
            Progress::Need(ChunkStepView::MeasureLast) => facts.session is Some && presence(
                facts.session->0,
            ) == Ok::<bool, LocalErrorView>(false),
            Progress::Need(ChunkStepView::ReadLast { position, len }) => position
                == follower.position && (facts.last_len matches Some(Ok(total)) && len == total
                - position && len > 0) && facts.session is Some && presence(facts.session->0)
                == Ok::<bool, LocalErrorView>(false),
            Progress::Need(ChunkStepView::Wait { millis }) => millis == 500 && facts.session is Some
                && presence(facts.session->0) != Ok::<bool, LocalErrorView>(false),
            Progress::Done(Ok(ChunkView::Data(bytes))) => bytes.len() > 0 && {
                ||| facts.len matches Some(Ok(total)) && (facts.read matches Some(Ok(read))
                    && bytes.len() <= total - follower.position && bytes =~= read@.take(
                    bytes.len() as int,
                ) && bytes.len() <= read@.len() && (bytes.len() == read@.len() || bytes.len()
                    == total - follower.position))
                ||| facts.last_len matches Some(Ok(total)) && (facts.last_read matches Some(
                    Ok(read),
                ) && bytes.len() <= total - follower.position && bytes =~= read@.take(
                    bytes.len() as int,
                ) && bytes.len() <= read@.len() && (bytes.len() == read@.len() || bytes.len()
                    == total - follower.position))
            },
            Progress::Done(Ok(ChunkView::Again)) => facts.wake == Some(Wake::Changed) || facts.wake
                == Some(Wake::TimedOut),
            Progress::Done(Ok(ChunkView::End)) => true,
            Progress::Done(Err(reason)) => {
                ||| facts.len matches Some(Err(why)) && reason == why@
                ||| facts.read matches Some(Err(why)) && reason == why@
                ||| facts.last_len matches Some(Err(why)) && reason == why@
                ||| facts.last_read matches Some(Err(why)) && reason == why@
            },
        },
{
}

/// What is new in a log is never passed over: bytes that were read beyond the position
/// are given, while the session runs as well as once it is gone.
pub proof fn law_new_bytes_are_given(follower: FollowerView, facts: ChunkFacts, total: u64)
    requires
        total > follower.position,
    ensures
        facts.len == Some(Ok::<u64, String>(total)) && (facts.read matches Some(Ok(read))
            && 0 < read@.len() <= total - follower.position) ==> looking(follower, facts)
            == Progress::<ChunkStepView, ChunkView, Seq<char>>::Done(
            Ok(ChunkView::Data(facts.read->0->Ok_0@)),
        ),
        (facts.len matches Some(Ok(len)) && len <= follower.position) && facts.session is Some
            && presence(facts.session->0) == Ok::<bool, LocalErrorView>(false) && facts.last_len
            == Some(Ok::<u64, String>(total)) && (facts.last_read matches Some(Ok(read)) && 0
            < read@.len() <= total - follower.position) ==> looking(follower, facts)
            == Progress::<ChunkStepView, ChunkView, Seq<char>>::Done(
            Ok(ChunkView::Data(facts.last_read->0->Ok_0@)),
        ),
{
}

/// The position moves behind what was given, and stays where nothing was.
pub proof fn law_position_moves_with_the_bytes(
    position: int,
    progress: Progress<ChunkStepView, ChunkView, Seq<char>>,
)
    ensures
        moved(position, progress) >= position,
        progress matches Progress::Done(Ok(ChunkView::Data(bytes))) ==> moved(position, progress)
            - position == bytes.len(),
        !(progress matches Progress::Done(Ok(ChunkView::Data(_)))) ==> moved(position, progress)
            == position,
{
}

/// Steps and followers are seen as they are.
pub proof fn law_following_is_seen_as_it_is(
    follower: LogFollower,
    follow: FollowStep,
    step: ChunkStep,
    chunk: Chunk,
)
    ensures
        follower@.position == follower.position,
        follower@.session_name == follower.session_name@,
        match follow {
            FollowStep::Open { path } => follow@ == (FollowStepView::Open { path: path@ }),
            FollowStep::ReadAll => follow@ is ReadAll,
            FollowStep::Reopen { path, position } => follow@ == (FollowStepView::Reopen {
                path: path@,
                position: position as int,
            }),
            FollowStep::Watch { path } => follow@ == (FollowStepView::Watch { path: path@ }),
        },
        match step {
            ChunkStep::Measure => step@ is Measure,
            ChunkStep::Read { position, len } => step@ == (ChunkStepView::Read {
                position: position as int,
                len: len as int,
            }),
            ChunkStep::FindSession { call } => step@ == (ChunkStepView::FindSession {
                call: call.deep_view(),
            }),
            ChunkStep::MeasureLast => step@ is MeasureLast,
            ChunkStep::ReadLast { position, len } => step@ == (ChunkStepView::ReadLast {
                position: position as int,
                len: len as int,
            }),
            ChunkStep::Wait { millis } => step@ == (ChunkStepView::Wait { millis: millis as int }),
        },
        match chunk {
            Chunk::Data(bytes) => chunk@ == ChunkView::Data(held(bytes)),
            Chunk::End => chunk@ is End,
            Chunk::Again => chunk@ is Again,
        },
{
}

} // verus!
