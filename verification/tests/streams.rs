use bytes::Bytes;
use loom_server_local::log_follower::{
    find_tail, Chunk, ChunkFacts, ChunkStep, FollowFacts, FollowStep, LogFollower, Wake,
    POLL_MILLIS,
};
use loom_server_local::progress::{Attempt, Progress, Run};
use loom_server_local::pty::{
    AttachFacts, AttachStep, PtyAsyncReader, PtyAsyncWriter, PtyProcess, ReadOutcome, Received,
    Reserve, Waiting, WriteOutcome, CHANNEL_BUFFER_SIZE, READ_BUFFER_SIZE,
};
use loom_server_local::LocalError;

#[test]
fn tail_is_made_of_whole_lines() {
    let log = b"one\ntwo\nthree\n";
    assert_eq!(find_tail(log, 0), 0);
    assert_eq!(find_tail(log, 1), 8);
    assert_eq!(find_tail(log, 2), 4);
    assert_eq!(find_tail(log, 3), 0);
    assert_eq!(find_tail(log, u64::MAX), 0);
    assert_eq!(find_tail(b"one\ntwo", 1), 4);
    assert_eq!(find_tail(b"\n\n\n", 1), 2);
    assert_eq!(find_tail(b"\n\n\n", 2), 1);
    assert_eq!(find_tail(b"", 5), 0);
    assert_eq!(find_tail(b"\n", 1), 0);
}

fn follow_facts() -> FollowFacts {
    FollowFacts { opened: None, content: None, reopened: None, watched: None }
}

fn follow(tail: u64, facts: &FollowFacts) -> Progress<FollowStep, LogFollower, String> {
    LogFollower::new("/log", "weaver-x".to_string(), tail, facts)
}

#[test]
fn follower_without_a_tail_starts_at_the_start() {
    let mut facts = follow_facts();
    assert!(matches!(follow(0, &facts), Progress::Need(FollowStep::Open { path }) if path == "/log"));
    facts.opened = Some(Ok(100));
    assert!(matches!(follow(0, &facts), Progress::Need(FollowStep::Watch { path }) if path == "/log"));
    facts.watched = Some(Attempt::Failed("limit".to_string()));
    assert!(matches!(follow(0, &facts), Progress::Done(Err(reason)) if reason == "limit"));
    facts.watched = Some(Attempt::Succeeded);
    assert!(matches!(follow(0, &facts), Progress::Done(Ok(follower)) if follower.position == 0));
    facts.opened = Some(Ok(0));
    assert!(matches!(follow(9, &facts), Progress::Done(Ok(follower)) if follower.position == 0));
}

#[test]
fn follower_with_a_tail_reads_the_log_first() {
    let mut facts = follow_facts();
    facts.opened = Some(Ok(8));
    assert!(matches!(follow(1, &facts), Progress::Need(FollowStep::ReadAll)));
    facts.content = Some(Err("io".to_string()));
    assert!(matches!(follow(1, &facts), Progress::Done(Err(reason)) if reason == "io"));
    facts.content = Some(Ok(b"one\ntwo\n".to_vec()));
    assert!(matches!(
        follow(1, &facts),
        Progress::Need(FollowStep::Reopen { path, position: 4 }) if path == "/log"
    ));
    facts.reopened = Some(Attempt::Failed("seek".to_string()));
    assert!(matches!(follow(1, &facts), Progress::Done(Err(reason)) if reason == "seek"));
    facts.reopened = Some(Attempt::Succeeded);
    facts.watched = Some(Attempt::Succeeded);
    assert!(matches!(follow(1, &facts), Progress::Done(Ok(follower)) if follower.position == 4));
}

fn chunk_facts() -> ChunkFacts {
    ChunkFacts { len: None, read: None, session: None, last_len: None, last_read: None, wake: None }
}

fn session(there: bool) -> Run {
    Run::Exited { success: there, stdout: Vec::new(), stderr: Vec::new() }
}

/// All that a follower gives of a log whose session is gone, reading at most
/// `most` bytes at once.
fn read_all(log: &[u8], start: u64, most: usize) -> Vec<u8> {
    let mut follower = LogFollower { position: start, session_name: "weaver-x".to_string() };
    let mut given = Vec::new();
    loop {
        let mut facts = chunk_facts();
        let chunk = loop {
            let read = |position: u64, len: u64| {
                let n = most.min(len as usize);
                Ok(log[position as usize..position as usize + n].to_vec())
            };
            match follower.next_chunk(&facts) {
                Progress::Done(result) => break result.unwrap(),
                Progress::Need(ChunkStep::Measure) => facts.len = Some(Ok(log.len() as u64)),
                Progress::Need(ChunkStep::Read { position, len }) => {
                    facts.read = Some(read(position, len))
                }
                Progress::Need(ChunkStep::FindSession { call }) => {
                    assert_eq!(call.join(" "), "has-session -t weaver-x");
                    facts.session = Some(session(false));
                }
                Progress::Need(ChunkStep::MeasureLast) => {
                    facts.last_len = Some(Ok(log.len() as u64))
                }
                Progress::Need(ChunkStep::ReadLast { position, len }) => {
                    facts.last_read = Some(read(position, len))
                }
                Progress::Need(ChunkStep::Wait { .. }) => unreachable!(),
            }
        };
        match chunk {
            Chunk::Data(bytes) => given.extend_from_slice(&bytes),
            Chunk::End => return given,
            Chunk::Again => {}
        }
        assert_eq!(follower.position, start + given.len() as u64);
    }
}

#[test]
fn chunks_make_up_the_log() {
    let log = b"some output\nand some more\n";
    for most in [1, 3, 7, 100] {
        assert_eq!(read_all(log, 0, most), log);
        assert_eq!(read_all(log, 12, most), &log[12..]);
    }
}

#[test]
fn follower_waits_while_the_session_runs() {
    let mut follower = LogFollower { position: 4, session_name: "weaver-x".to_string() };
    let mut facts = chunk_facts();
    facts.len = Some(Ok(4));
    facts.session = Some(session(true));
    assert!(matches!(
        follower.next_chunk(&facts),
        Progress::Need(ChunkStep::Wait { millis: POLL_MILLIS })
    ));
    facts.session = Some(Run::NotRun { error: "gone".to_string() });
    assert!(matches!(
        follower.next_chunk(&facts),
        Progress::Need(ChunkStep::Wait { millis: 500 })
    ));
    facts.wake = Some(Wake::Changed);
    assert!(matches!(follower.next_chunk(&facts), Progress::Done(Ok(Chunk::Again))));
    facts.wake = Some(Wake::TimedOut);
    assert!(matches!(follower.next_chunk(&facts), Progress::Done(Ok(Chunk::Again))));
    facts.wake = Some(Wake::Closed);
    assert!(matches!(follower.next_chunk(&facts), Progress::Done(Ok(Chunk::End))));
    assert_eq!(follower.position, 4);
}

#[test]
fn log_is_drained_once_the_session_is_gone() {
    let mut follower = LogFollower { position: 4, session_name: "weaver-x".to_string() };
    let mut facts = chunk_facts();
    facts.len = Some(Ok(4));
    facts.session = Some(session(false));
    assert!(matches!(follower.next_chunk(&facts), Progress::Need(ChunkStep::MeasureLast)));
    facts.last_len = Some(Ok(6));
    assert!(matches!(
        follower.next_chunk(&facts),
        Progress::Need(ChunkStep::ReadLast { position: 4, len: 2 })
    ));
    facts.last_read = Some(Ok(b"xyz".to_vec()));
    match follower.next_chunk(&facts) {
        Progress::Done(Ok(Chunk::Data(bytes))) => assert_eq!(&bytes[..], b"xy"),
        other => panic!("{other:?}"),
    }
    assert_eq!(follower.position, 6);
    facts.last_len = Some(Ok(6));
    assert!(matches!(follower.next_chunk(&facts), Progress::Done(Ok(Chunk::End))));
    facts.last_len = Some(Ok(7));
    facts.last_read = Some(Ok(Vec::new()));
    assert!(matches!(follower.next_chunk(&facts), Progress::Done(Ok(Chunk::End))));
}

#[test]
fn failures_of_following_are_told() {
    let mut follower = LogFollower { position: 0, session_name: "weaver-x".to_string() };
    let failed = || Some(Err("io".to_string()));
    let mut facts = chunk_facts();
    facts.len = failed();
    assert!(matches!(follower.next_chunk(&facts), Progress::Done(Err(reason)) if reason == "io"));
    facts.len = Some(Ok(1));
    facts.read = Some(Err("io".to_string()));
    assert!(matches!(follower.next_chunk(&facts), Progress::Done(Err(reason)) if reason == "io"));
    facts.read = Some(Ok(Vec::new()));
    facts.session = Some(session(false));
    facts.last_len = failed();
    assert!(matches!(follower.next_chunk(&facts), Progress::Done(Err(reason)) if reason == "io"));
    facts.last_len = Some(Ok(1));
    facts.last_read = Some(Err("io".to_string()));
    assert!(matches!(follower.next_chunk(&facts), Progress::Done(Err(reason)) if reason == "io"));
    assert_eq!(follower.position, 0);
}

fn ready(outcome: ReadOutcome) -> Vec<u8> {
    match outcome {
        ReadOutcome::Ready(bytes) => bytes.to_vec(),
        other => panic!("{other:?}"),
    }
}

#[test]
fn reader_gives_what_arrived_in_order() {
    let messages: [&[u8]; 3] = [b"hello", b"w", b"orld!"];
    for room in [1usize, 2, 4, 64] {
        let mut reader = PtyAsyncReader::new();
        let mut given = Vec::new();
        for message in messages {
            let received = Received::Bytes(Bytes::copy_from_slice(message));
            given.extend(ready(reader.poll_received(room, received)));
            while let Some(outcome) = reader.poll_buffered(room) {
                let bytes = ready(outcome);
                assert!(!bytes.is_empty() && bytes.len() <= room);
                given.extend(bytes);
            }
        }
        assert_eq!(given, b"helloworld!");
    }
}

#[test]
fn reader_without_room_keeps_everything() {
    let mut reader = PtyAsyncReader::new();
    assert!(reader.poll_buffered(8).is_none());
    let received = Received::Bytes(Bytes::copy_from_slice(b"abc"));
    assert!(ready(reader.poll_received(0, received)).is_empty());
    assert!(ready(reader.poll_buffered(0).unwrap()).is_empty());
    assert_eq!(ready(reader.poll_buffered(8).unwrap()), b"abc");
    assert!(reader.poll_buffered(8).is_none());
}

#[test]
fn reader_passes_on_ends_failures_and_waits() {
    let mut reader = PtyAsyncReader::new();
    assert!(ready(reader.poll_received(8, Received::Bytes(Bytes::new()))).is_empty());
    assert!(ready(reader.poll_received(8, Received::Closed)).is_empty());
    assert!(matches!(reader.poll_received(8, Received::Failed), ReadOutcome::Failed));
    assert!(matches!(reader.poll_received(8, Received::Pending), ReadOutcome::Pending));
    assert!(reader.poll_buffered(8).is_none());
}

#[test]
fn terminal_output_is_forwarded_until_it_ends() {
    let forward = PtyAsyncReader::forward(b"abcdef", 4);
    assert_eq!(&forward.bytes[..], b"abcd");
    assert!(!forward.last);
    let end = PtyAsyncReader::forward(b"abcdef", 0);
    assert!(end.bytes.is_empty());
    assert!(end.last);
    assert_eq!(CHANNEL_BUFFER_SIZE, 32);
    assert_eq!(READ_BUFFER_SIZE, 4096);
}

#[test]
fn writer_writes_all_or_nothing() {
    let writer = PtyAsyncWriter::new();
    match writer.poll_write(b"keys", Reserve::Granted, None) {
        WriteOutcome::Send { bytes, len } => {
            assert_eq!(&bytes[..], b"keys");
            assert_eq!(len, 4);
        }
        other => panic!("{other:?}"),
    }
    match writer.poll_write(b"keys", Reserve::Full, None) {
        WriteOutcome::Queue { bytes } => assert_eq!(&bytes[..], b"keys"),
        other => panic!("{other:?}"),
    }
    assert!(matches!(
        writer.poll_write(b"keys", Reserve::Full, Some(Waiting::Sent)),
        WriteOutcome::Written { len: 4 }
    ));
    assert!(matches!(
        writer.poll_write(b"keys", Reserve::Full, Some(Waiting::Pending)),
        WriteOutcome::Pending
    ));
    for (reserve, waiting) in
        [(Reserve::Closed, None), (Reserve::Full, Some(Waiting::Closed))]
    {
        assert!(matches!(
            writer.poll_write(b"keys", reserve, waiting),
            WriteOutcome::Broken { message } if message == "pty writer closed"
        ));
    }
}

#[test]
fn failures_of_attaching_are_told() {
    let failed = || Some(Attempt::Failed("e".to_string()));
    let done = || Some(Attempt::Succeeded);
    let mut facts = AttachFacts { opened: None, spawned: None, reader: None, writer: None };
    let message = |facts: &AttachFacts| match PtyProcess::spawn_tmux_attach("weaver-x", facts) {
        Progress::Done(Err(LocalError::PtyError { message })) => message,
        other => panic!("{other:?}"),
    };
    facts.opened = failed();
    assert_eq!(message(&facts), "failed to open pty: e");
    facts.opened = done();
    match PtyProcess::spawn_tmux_attach("weaver-x", &facts) {
        Progress::Need(AttachStep::Spawn { call }) => {
            assert_eq!(call.join(" "), "attach-session -t weaver-x")
        }
        other => panic!("{other:?}"),
    }
    facts.spawned = failed();
    assert_eq!(message(&facts), "failed to spawn tmux attach: e");
    facts.spawned = done();
    assert!(matches!(
        PtyProcess::spawn_tmux_attach("weaver-x", &facts),
        Progress::Need(AttachStep::CloneReader)
    ));
    facts.reader = failed();
    assert_eq!(message(&facts), "failed to clone reader: e");
    facts.reader = done();
    assert!(matches!(
        PtyProcess::spawn_tmux_attach("weaver-x", &facts),
        Progress::Need(AttachStep::TakeWriter)
    ));
    facts.writer = failed();
    assert_eq!(message(&facts), "failed to take writer: e");
}
