use loom_server_local::progress::Run;
use loom_server_local::tmux::{
    check_tmux_available, list_sessions, list_sessions_command, read_dead_answer,
    read_number_answer, says_no_session_text, says_nothing_to_list_text, version_command,
    TmuxSession,
};
use loom_server_local::LocalError;

fn session() -> TmuxSession {
    TmuxSession::new("weaver-x".to_string())
}

fn exited(success: bool, stdout: &[u8], stderr: &[u8]) -> Run {
    Run::Exited { success, stdout: stdout.to_vec(), stderr: stderr.to_vec() }
}

fn not_run() -> Run {
    Run::NotRun { error: "gone".to_string() }
}

fn message<T: std::fmt::Debug>(result: Result<T, LocalError>) -> String {
    match result {
        Err(LocalError::TmuxError { message }) => message,
        other => panic!("{other:?}"),
    }
}

#[test]
fn calls_of_tmux() {
    let session = session();
    assert_eq!(session.session_exists_command(), vec!["has-session", "-t", "weaver-x"]);
    assert_eq!(
        session.create_command("/w d"),
        vec!["new-session", "-d", "-s", "weaver-x", "-c", "/w d"]
    );
    assert_eq!(session.kill_command(), vec!["kill-session", "-t", "weaver-x"]);
    assert_eq!(
        session.send_keys_command("ls -l"),
        vec!["send-keys", "-t", "weaver-x", "ls -l", "Enter"]
    );
    assert_eq!(
        session.pane_pid_command(),
        vec!["display-message", "-t", "weaver-x", "-p", "#{pane_pid}"]
    );
    assert_eq!(
        session.pane_dead_command(),
        vec!["display-message", "-t", "weaver-x", "-p", "#{pane_dead}"]
    );
    assert_eq!(
        session.pane_exit_command(),
        vec!["display-message", "-t", "weaver-x", "-p", "#{pane_dead_status}"]
    );
    assert_eq!(
        session.pipe_pane_command("/l.log"),
        vec!["pipe-pane", "-t", "weaver-x", "-o", "cat >> /l.log"]
    );
    assert_eq!(session.attach_command(), vec!["attach-session", "-t", "weaver-x"]);
    assert_eq!(version_command(), vec!["-V"]);
    assert_eq!(list_sessions_command(), vec!["list-sessions", "-F", "#{session_name}"]);
}

#[test]
fn session_exists_when_tmux_succeeds() {
    assert!(session().session_exists(&exited(true, b"", b"")).unwrap());
    assert!(!session().session_exists(&exited(false, b"", b"")).unwrap());
    assert_eq!(message(session().session_exists(&not_run())), "failed to check session: gone");
}

#[test]
fn calls_that_must_succeed() {
    let bad = exited(false, b"", b"duplicate session");
    assert!(session().create(&exited(true, b"", b"")).is_ok());
    assert_eq!(message(session().create(&bad)), "tmux new-session failed: duplicate session");
    assert_eq!(message(session().create(&not_run())), "failed to create session: gone");
    assert!(session().send_keys(&exited(true, b"", b"")).is_ok());
    assert_eq!(message(session().send_keys(&bad)), "tmux send-keys failed: duplicate session");
    assert_eq!(message(session().send_keys(&not_run())), "failed to send keys: gone");
    assert!(session().pipe_pane(&exited(true, b"", b"")).is_ok());
    assert_eq!(message(session().pipe_pane(&bad)), "tmux pipe-pane failed: duplicate session");
    assert_eq!(message(session().pipe_pane(&not_run())), "failed to pipe pane: gone");
}

#[test]
fn killing_a_missing_session_is_no_failure() {
    assert!(session().kill(&exited(true, b"", b"")).is_ok());
    assert!(session().kill(&exited(false, b"", b"session not found: weaver-x")).is_ok());
    assert!(session().kill(&exited(false, b"", b"can't find session: weaver-x")).is_ok());
    assert_eq!(
        message(session().kill(&exited(false, b"", b"lost server"))),
        "tmux kill-session failed: lost server"
    );
    assert_eq!(message(session().kill(&not_run())), "failed to kill session: gone");
    assert!(says_no_session_text("x session not found y"));
    assert!(!says_no_session_text("session"));
}

#[test]
fn broken_bytes_are_replaced() {
    assert_eq!(
        message(session().create(&exited(false, b"", b"a\xffb"))),
        "tmux new-session failed: a\u{fffd}b"
    );
}

#[test]
fn process_of_a_pane() {
    assert_eq!(session().get_pane_pid(&exited(true, b"123\n", b"")).unwrap(), Some(123));
    assert_eq!(session().get_pane_pid(&exited(true, b"none\n", b"")).unwrap(), None);
    assert_eq!(session().get_pane_pid(&exited(false, b"123\n", b"")).unwrap(), None);
    assert_eq!(message(session().get_pane_pid(&not_run())), "failed to get pane pid: gone");
    assert_eq!(read_number_answer(" 7 \n"), Some(7));
}

#[test]
fn pane_is_dead_when_tmux_says_so_or_cannot_tell() {
    assert!(session().is_pane_dead(&exited(true, b"1\n", b"")).unwrap());
    assert!(!session().is_pane_dead(&exited(true, b"0\n", b"")).unwrap());
    assert!(!session().is_pane_dead(&exited(true, b"", b"")).unwrap());
    assert!(session().is_pane_dead(&exited(false, b"0\n", b"")).unwrap());
    assert_eq!(message(session().is_pane_dead(&not_run())), "failed to check pane status: gone");
    assert!(read_dead_answer(" 1"));
    assert!(!read_dead_answer("11"));
}

#[test]
fn exit_status_of_a_pane() {
    assert_eq!(session().pane_exit_status(&exited(true, b"2\n", b"")).unwrap(), Some(2));
    assert_eq!(session().pane_exit_status(&exited(true, b"\n", b"")).unwrap(), None);
    assert_eq!(session().pane_exit_status(&exited(false, b"2\n", b"")).unwrap(), None);
    assert_eq!(
        message(session().pane_exit_status(&not_run())),
        "failed to check pane status: gone"
    );
}

#[test]
fn sessions_are_listed_by_line() {
    assert_eq!(list_sessions(&exited(true, b"a\nb\r\n", b"")).unwrap(), vec!["a", "b"]);
    assert!(list_sessions(&exited(true, b"", b"")).unwrap().is_empty());
    assert!(list_sessions(&exited(false, b"", b"no server running on /x")).unwrap().is_empty());
    assert!(list_sessions(&exited(false, b"", b"no sessions")).unwrap().is_empty());
    assert_eq!(
        message(list_sessions(&exited(false, b"", b"odd"))),
        "tmux list-sessions failed: odd"
    );
    assert_eq!(message(list_sessions(&not_run())), "failed to list sessions: gone");
    assert!(says_nothing_to_list_text("error: no sessions"));
    assert!(!says_nothing_to_list_text("sessions"));
}

#[test]
fn tmux_must_be_there() {
    assert!(check_tmux_available(&exited(true, b"tmux 3.4", b"")).is_ok());
    assert_eq!(message(check_tmux_available(&not_run())), "tmux not found: gone");
    assert_eq!(message(check_tmux_available(&exited(false, b"", b""))), "tmux not available");
}
