//! The tmux sessions that weavers run in: how tmux is called, and what its
//! answers mean.
use crate::error::{LocalError, LocalErrorView, LocalResult};
use crate::progress::{lossy_text, utf8_lossy, Run};
use crate::text::{
    decimal, holds, holds_text, is_space, join2, law_decimal_is_made_of_digits,
    law_decimal_reads_back, law_held_text_stands_in_between, law_lines_one_by_one,
    law_trim_leaves_the_middle, law_trim_takes_the_space_at_the_ends, lines_of, parse_u32,
    same_text, text_lines, trim, trim_text, u32_value,
};
use vstd::prelude::*;
use vstd::string::*;

verus! {

/// The words of a call of a program.
pub fn words(parts: &[&str]) -> (words: Vec<String>)
    ensures
        words.deep_view() == parts.deep_view(),
{
    let mut words: Vec<String> = Vec::new();
    let mut i: usize = 0;
    while i < parts.len()
        invariant
            i <= parts@.len(),
            words.deep_view() == parts.deep_view().take(i as int),
        decreases parts@.len() - i,
    {
        let ghost before = words.deep_view();
        words.push(parts[i].to_owned());
        assert(words.deep_view() =~= before.push(parts@[i as int]@));
        assert(parts.deep_view().take(i + 1) =~= before.push(parts@[i as int]@));
        i = i + 1;
    }
    assert(parts.deep_view().take(parts@.len() as int) =~= parts.deep_view());
    words
}

/// The call that finds a session.
pub open spec fn has_session_words(name: Seq<char>) -> Seq<Seq<char>> {
    seq!["has-session"@, "-t"@, name]
}

/// The call that makes a session in a directory.
pub open spec fn new_session_words(name: Seq<char>, working_dir: Seq<char>) -> Seq<Seq<char>> {
    seq!["new-session"@, "-d"@, "-s"@, name, "-c"@, working_dir]
}

/// The call that ends a session.
pub open spec fn kill_session_words(name: Seq<char>) -> Seq<Seq<char>> {
    seq!["kill-session"@, "-t"@, name]
}

/// The call that types a line into a session.
pub open spec fn send_keys_words(name: Seq<char>, keys: Seq<char>) -> Seq<Seq<char>> {
    seq!["send-keys"@, "-t"@, name, keys, "Enter"@]
}

/// A question about the pane of a session.
pub open spec fn ask_words(name: Seq<char>, question: Seq<char>) -> Seq<Seq<char>> {
    seq!["display-message"@, "-t"@, name, "-p"@, question]
}

/// The call that tells the process in a pane.
pub open spec fn pane_pid_words(name: Seq<char>) -> Seq<Seq<char>> {
    ask_words(name, "#{pane_pid}"@)
}

/// The call that tells whether the process in a pane has ended.
pub open spec fn pane_dead_words(name: Seq<char>) -> Seq<Seq<char>> {
    ask_words(name, "#{pane_dead}"@)
}

/// The call that tells the status with which the process in a pane exited.
pub open spec fn pane_exit_words(name: Seq<char>) -> Seq<Seq<char>> {
    ask_words(name, "#{pane_dead_status}"@)
}

/// The call that appends a session's output to a file.
pub open spec fn pipe_pane_words(name: Seq<char>, output_file: Seq<char>) -> Seq<Seq<char>> {
    seq!["pipe-pane"@, "-t"@, name, "-o"@, "cat >> "@ + output_file]
}

/// The call that shows a session in a terminal.
pub open spec fn attach_words(name: Seq<char>) -> Seq<Seq<char>> {
    seq!["attach-session"@, "-t"@, name]
}

/// The call that lists the sessions.
pub open spec fn list_sessions_words() -> Seq<Seq<char>> {
    seq!["list-sessions"@, "-F"@, "#{session_name}"@]
}

/// The call that tells the version of tmux.
pub open spec fn version_words() -> Seq<Seq<char>> {
    seq!["-V"@]
}

/// An error of tmux: what was being done, and what came of it.
pub open spec fn tmux_error(what: Seq<char>, reason: Seq<char>) -> LocalErrorView {
    LocalErrorView::TmuxError { message: what + reason }
}

/// What comes of a call that must succeed.
pub open spec fn must_succeed(run: Run, not_run: Seq<char>, failed: Seq<char>) -> Option<
    LocalErrorView,
> {
    match run {
        Run::NotRun { error } => Some(tmux_error(not_run, error@)),
        Run::Exited { success: true, .. } => None,
        Run::Exited { success: false, stdout, stderr } => Some(
            tmux_error(failed, utf8_lossy(stderr@)),
        ),
    }
}

/// Whether tmux complains that the session to be ended is not there.
pub open spec fn says_no_session(stderr: Seq<char>) -> bool {
    holds_text(stderr, "session not found"@) || holds_text(stderr, "can't find session"@)
}

/// Whether tmux complains that there is nothing to list.
pub open spec fn says_nothing_to_list(stderr: Seq<char>) -> bool {
    holds_text(stderr, "no server running"@) || holds_text(stderr, "no sessions"@)
}

/// What tmux answers when asked for a number.
pub open spec fn number_answer(stdout: Seq<char>) -> Option<u32> {
    u32_value(trim(stdout))
}

/// What tmux answers about a pane being dead.
pub open spec fn dead_answer(stdout: Seq<char>) -> bool {
    trim(stdout) == "1"@
}

pub fn says_no_session_text(stderr: &str) -> (says: bool)
    ensures
        says == says_no_session(stderr@),
{
    holds(stderr, "session not found") || holds(stderr, "can't find session")
}

pub fn says_nothing_to_list_text(stderr: &str) -> (says: bool)
    ensures
        says == says_nothing_to_list(stderr@),
{
    holds(stderr, "no server running") || holds(stderr, "no sessions")
}

pub fn read_number_answer(stdout: &str) -> (pid: Option<u32>)
    ensures
        pid == number_answer(stdout@),
{
    parse_u32(trim_text(stdout).as_str())
}

pub fn read_dead_answer(stdout: &str) -> (dead: bool)
    ensures
        dead == dead_answer(stdout@),
{
    same_text(trim_text(stdout).as_str(), "1")
}

fn tmux_failure(what: &str, reason: &str) -> (error: LocalError)
    ensures
        error@ == tmux_error(what@, reason@),
{
    LocalError::TmuxError { message: join2(what, reason) }
}

/// A tmux session.
#[derive(Debug)]
pub struct TmuxSession {
    pub name: String,
}

impl TmuxSession {
    pub fn new(name: String) -> (session: Self)
        ensures
            session.name@ == name@,
    {
        TmuxSession { name }
    }

    /// How tmux is asked whether the session exists.
    pub fn session_exists_command(&self) -> (call: Vec<String>)
        ensures
            call.deep_view() == has_session_words(self.name@),
    {
        let call = words(&["has-session", "-t", self.name.as_str()]);
        assert(call.deep_view() =~= has_session_words(self.name@));
        call
    }

    /// Whether the session exists, from what [`Self::session_exists_command`] gave.
    pub fn session_exists(&self, run: &Run) -> (answer: LocalResult<bool>)
        ensures
            answer matches Ok(there) ==> presence(*run) == Ok::<bool, LocalErrorView>(there),
            answer matches Err(error) ==> presence(*run) == Err::<bool, LocalErrorView>(
                error@,
            ),
    {
        match run {
            Run::NotRun { error } => Err(tmux_failure("failed to check session: ", error.as_str())),
            Run::Exited { success, .. } => Ok(*success),
        }
    }

    /// How the session is created, in a working directory.
    pub fn create_command(&self, working_dir: &str) -> (call: Vec<String>)
        ensures
            call.deep_view() == new_session_words(self.name@, working_dir@),
    {
        let call = words(&["new-session", "-d", "-s", self.name.as_str(), "-c", working_dir]);
        assert(call.deep_view() =~= new_session_words(self.name@, working_dir@));
        call
    }

    /// What came of [`Self::create_command`].
    pub fn create(&self, run: &Run) -> (result: LocalResult<()>)
        ensures
            is_outcome(result, create_failure(*run)),
    {
        succeed(run, "failed to create session: ", "tmux new-session failed: ")
    }

    /// How the session is ended.
    pub fn kill_command(&self) -> (call: Vec<String>)
        ensures
            call.deep_view() == kill_session_words(self.name@),
    {
        let call = words(&["kill-session", "-t", self.name.as_str()]);
        assert(call.deep_view() =~= kill_session_words(self.name@));
        call
    }

    /// What came of [`Self::kill_command`]. A session that is not there counts as
    /// ended.
    pub fn kill(&self, run: &Run) -> (result: LocalResult<()>)
        ensures
            is_outcome(result, kill_failure(*run)),
    {
        match run {
            Run::NotRun { error } => Err(tmux_failure("failed to kill session: ", error.as_str())),
            Run::Exited { success, stderr, .. } => {
                if *success {
                    return Ok(());
                }
                let complaint = lossy_text(stderr.as_slice());
                if says_no_session_text(complaint.as_str()) {
                    Ok(())
                } else {
                    Err(tmux_failure("tmux kill-session failed: ", complaint.as_str()))
                }
            },
        }
    }

    /// How a line is typed into the session.
    pub fn send_keys_command(&self, keys: &str) -> (call: Vec<String>)
        ensures
            call.deep_view() == send_keys_words(self.name@, keys@),
    {
        let call = words(&["send-keys", "-t", self.name.as_str(), keys, "Enter"]);
        assert(call.deep_view() =~= send_keys_words(self.name@, keys@));
        call
    }

    /// What came of [`Self::send_keys_command`].
    pub fn send_keys(&self, run: &Run) -> (result: LocalResult<()>)
        ensures
            is_outcome(result, send_keys_failure(*run)),
    {
        succeed(run, "failed to send keys: ", "tmux send-keys failed: ")
    }

    /// How tmux is asked for the process in the session's pane.
    pub fn pane_pid_command(&self) -> (call: Vec<String>)
        ensures
            call.deep_view() == pane_pid_words(self.name@),
    {
        let call = words(&["display-message", "-t", self.name.as_str(), "-p", "#{pane_pid}"]);
        assert(call.deep_view() =~= pane_pid_words(self.name@));
        call
    }

    /// The process in the session's pane, from what [`Self::pane_pid_command`]
    /// gave.
    pub fn get_pane_pid(&self, run: &Run) -> (answer: LocalResult<Option<u32>>)
        ensures
            answer matches Ok(pid) ==> pane_pid(*run) == Ok::<Option<u32>, LocalErrorView>(pid),
            answer matches Err(error) ==> pane_pid(*run) == Err::<Option<u32>, LocalErrorView>(
                error@,
            ),
    {
        match run {
            Run::NotRun { error } => Err(tmux_failure("failed to get pane pid: ", error.as_str())),
            Run::Exited { success, stdout, .. } => {
                if *success {
                    Ok(read_number_answer(lossy_text(stdout.as_slice()).as_str()))
                } else {
                    Ok(None)
                }
            },
        }
    }

    /// How tmux is asked whether the session's pane is dead.
    pub fn pane_dead_command(&self) -> (call: Vec<String>)
        ensures
            call.deep_view() == pane_dead_words(self.name@),
    {
        let call = words(&["display-message", "-t", self.name.as_str(), "-p", "#{pane_dead}"]);
        assert(call.deep_view() =~= pane_dead_words(self.name@));
        call
    }

    /// Whether the session's pane is dead, from what [`Self::pane_dead_command`]
    /// gave. A pane of which tmux tells nothing counts as dead.
    pub fn is_pane_dead(&self, run: &Run) -> (answer: LocalResult<bool>)
        ensures
            answer matches Ok(dead) ==> pane_dead(*run) == Ok::<bool, LocalErrorView>(dead),
            answer matches Err(error) ==> pane_dead(*run) == Err::<bool, LocalErrorView>(error@),
    {
        match run {
            Run::NotRun { error } => Err(
                tmux_failure("failed to check pane status: ", error.as_str()),
            ),
            Run::Exited { success, stdout, .. } => {
                if *success {
                    Ok(read_dead_answer(lossy_text(stdout.as_slice()).as_str()))
                } else {
                    Ok(true)
                }
            },
        }
    }

    /// How tmux is asked with which status the process in a dead pane exited.
    pub fn pane_exit_command(&self) -> (call: Vec<String>)
        ensures
            call.deep_view() == pane_exit_words(self.name@),
    {
        let call = words(
            &["display-message", "-t", self.name.as_str(), "-p", "#{pane_dead_status}"],
        );
        assert(call.deep_view() =~= pane_exit_words(self.name@));
        call
    }

    /// The status with which the process in a dead pane exited, from what
    /// [`Self::pane_exit_command`] gave, if tmux tells it.
    pub fn pane_exit_status(&self, run: &Run) -> (answer: LocalResult<Option<u32>>)
        ensures
            answer matches Ok(status) ==> pane_exit(*run) == Ok::<Option<u32>, LocalErrorView>(
                status,
            ),
            answer matches Err(error) ==> pane_exit(*run) == Err::<Option<u32>, LocalErrorView>(
                error@,
            ),
    {
        match run {
            Run::NotRun { error } => Err(
                tmux_failure("failed to check pane status: ", error.as_str()),
            ),
            Run::Exited { success, stdout, .. } => {
                if *success {
                    Ok(read_number_answer(lossy_text(stdout.as_slice()).as_str()))
                } else {
                    Ok(None)
                }
            },
        }
    }

    /// How the output of the session's pane is appended to a file.
    pub fn pipe_pane_command(&self, output_file: &str) -> (call: Vec<String>)
        ensures
            call.deep_view() == pipe_pane_words(self.name@, output_file@),
    {
        let sink = join2("cat >> ", output_file);
        let call = words(&["pipe-pane", "-t", self.name.as_str(), "-o", sink.as_str()]);
        assert(call.deep_view() =~= pipe_pane_words(self.name@, output_file@));
        call
    }

    /// What came of [`Self::pipe_pane_command`].
    pub fn pipe_pane(&self, run: &Run) -> (result: LocalResult<()>)
        ensures
            is_outcome(result, pipe_pane_failure(*run)),
    {
        succeed(run, "failed to pipe pane: ", "tmux pipe-pane failed: ")
    }

    /// How a terminal is attached to the session.
    pub fn attach_command(&self) -> (call: Vec<String>)
        ensures
            call.deep_view() == attach_words(self.name@),
    {
        let call = words(&["attach-session", "-t", self.name.as_str()]);
        assert(call.deep_view() =~= attach_words(self.name@));
        call
    }
}

/// Whether a result is the given failure, or success where there is none.
pub open spec fn is_outcome(result: LocalResult<()>, failure: Option<LocalErrorView>) -> bool {
    match result {
        Ok(_) => failure is None,
        Err(error) => failure == Some(error@),
    }
}

/// Whether a session exists, from what came of asking.
pub open spec fn presence(run: Run) -> Result<bool, LocalErrorView> {
    match run {
        Run::NotRun { error } => Err(tmux_error("failed to check session: "@, error@)),
        Run::Exited { success, .. } => Ok(success),
    }
}

/// What went wrong in making a session, if anything did.
pub open spec fn create_failure(run: Run) -> Option<LocalErrorView> {
    must_succeed(run, "failed to create session: "@, "tmux new-session failed: "@)
}

/// What went wrong in typing into a session, if anything did.
pub open spec fn send_keys_failure(run: Run) -> Option<LocalErrorView> {
    must_succeed(run, "failed to send keys: "@, "tmux send-keys failed: "@)
}

/// What went wrong in sending a session's output to a file, if anything did.
pub open spec fn pipe_pane_failure(run: Run) -> Option<LocalErrorView> {
    must_succeed(run, "failed to pipe pane: "@, "tmux pipe-pane failed: "@)
}

/// What went wrong in ending a session, if anything did. A session that is not
/// there has ended.
pub open spec fn kill_failure(run: Run) -> Option<LocalErrorView> {
    match run {
        Run::Exited { success: false, stdout, stderr } if says_no_session(utf8_lossy(stderr@)) =>
        None,
        _ => must_succeed(run, "failed to kill session: "@, "tmux kill-session failed: "@),
    }
}

/// The process in a pane, if tmux tells it.
pub open spec fn pane_pid(run: Run) -> Result<Option<u32>, LocalErrorView> {
    match run {
        Run::NotRun { error } => Err(tmux_error("failed to get pane pid: "@, error@)),
        Run::Exited { success: true, stdout, stderr } => Ok(number_answer(utf8_lossy(stdout@))),
        Run::Exited { success: false, .. } => Ok(None),
    }
}

/// Whether the process in a pane has ended. So it counts if tmux cannot tell.
pub open spec fn pane_dead(run: Run) -> Result<bool, LocalErrorView> {
    match run {
        Run::NotRun { error } => Err(tmux_error("failed to check pane status: "@, error@)),
        Run::Exited { success: true, stdout, stderr } => Ok(dead_answer(utf8_lossy(stdout@))),
        Run::Exited { success: false, .. } => Ok(true),
    }
}

/// The status with which the process in a pane exited, if tmux tells it.
pub open spec fn pane_exit(run: Run) -> Result<Option<u32>, LocalErrorView> {
    match run {
        Run::NotRun { error } => Err(tmux_error("failed to check pane status: "@, error@)),
        Run::Exited { success: true, stdout, stderr } => Ok(number_answer(utf8_lossy(stdout@))),
        Run::Exited { success: false, .. } => Ok(None),
    }
}

fn succeed(run: &Run, not_run: &str, failed: &str) -> (result: LocalResult<()>)
    ensures
        is_outcome(result, must_succeed(*run, not_run@, failed@)),
{
    match run {
        Run::NotRun { error } => Err(tmux_failure(not_run, error.as_str())),
        Run::Exited { success, stderr, .. } => {
            if *success {
                Ok(())
            } else {
                Err(tmux_failure(failed, lossy_text(stderr.as_slice()).as_str()))
            }
        },
    }
}

/// How tmux is asked whether it is there.
pub fn version_command() -> (call: Vec<String>)
    ensures
        call.deep_view() == version_words(),
{
    let call = words(&["-V"]);
    assert(call.deep_view() =~= version_words());
    call
}

/// Why tmux cannot be used, if it cannot.
pub open spec fn unavailable(run: Run) -> Option<LocalErrorView> {
    match run {
        Run::NotRun { error } => Some(tmux_error("tmux not found: "@, error@)),
        Run::Exited { success: true, .. } => None,
        Run::Exited { success: false, .. } => Some(
            LocalErrorView::TmuxError { message: "tmux not available"@ },
        ),
    }
}

/// Whether tmux can be used, from what [`version_command`] gave.
pub fn check_tmux_available(run: &Run) -> (result: LocalResult<()>)
    ensures
        is_outcome(result, unavailable(*run)),
{
    match run {
        Run::NotRun { error } => Err(tmux_failure("tmux not found: ", error.as_str())),
        Run::Exited { success, .. } => {
            if *success {
                Ok(())
            } else {
                Err(LocalError::TmuxError { message: "tmux not available".to_owned() })
            }
        },
    }
}

/// How tmux is asked for the names of its sessions.
pub fn list_sessions_command() -> (call: Vec<String>)
    ensures
        call.deep_view() == list_sessions_words(),
{
    let call = words(&["list-sessions", "-F", "#{session_name}"]);
    assert(call.deep_view() =~= list_sessions_words());
    call
}

/// The names of the sessions. A tmux without a server has none.
pub open spec fn listed_sessions(run: Run) -> Result<Seq<Seq<char>>, LocalErrorView> {
    match run {
        Run::NotRun { error } => Err(tmux_error("failed to list sessions: "@, error@)),
        Run::Exited { success: true, stdout, stderr } => Ok(text_lines(utf8_lossy(stdout@))),
        Run::Exited { success: false, stdout, stderr } => if says_nothing_to_list(
            utf8_lossy(stderr@),
        ) {
            Ok(Seq::empty())
        } else {
            Err(tmux_error("tmux list-sessions failed: "@, utf8_lossy(stderr@)))
        },
    }
}

/// The names of the sessions, from what [`list_sessions_command`] gave. A tmux
/// without a server has none.
pub fn list_sessions(run: &Run) -> (answer: LocalResult<Vec<String>>)
    ensures
        answer matches Ok(names) ==> listed_sessions(*run) == Ok::<Seq<Seq<char>>, LocalErrorView>(
            names.deep_view(),
        ),
        answer matches Err(error) ==> listed_sessions(*run) == Err::<
            Seq<Seq<char>>,
            LocalErrorView,
        >(error@),
{
    match run {
        Run::NotRun { error } => Err(tmux_failure("failed to list sessions: ", error.as_str())),
        Run::Exited { success, stdout, stderr } => {
            if *success {
                return Ok(lines_of(lossy_text(stdout.as_slice()).as_str()));
            }
            let complaint = lossy_text(stderr.as_slice());
            if says_nothing_to_list_text(complaint.as_str()) {
                let none: Vec<String> = Vec::new();
                assert(none.deep_view() =~= Seq::<Seq<char>>::empty());
                Ok(none)
            } else {
                Err(tmux_failure("tmux list-sessions failed: ", complaint.as_str()))
            }
        },
    }
}

/// A call that must succeed has failed exactly if the program could not be run or
/// exited without success, and the error ends with the reason: why it could not be
/// run, or what the program complained. What it printed otherwise does not matter.
pub proof fn law_failures_tell_their_reason(run: Run)
    ensures
        run matches Run::Exited { success: true, .. } ==> create_failure(run) is None
            && send_keys_failure(run) is None && pipe_pane_failure(run) is None && kill_failure(run)
            is None && unavailable(run) is None,
        run matches Run::Exited { success: false, stderr, .. } ==> {
            let complaint = utf8_lossy(stderr@);
            &&& create_failure(run) == Some(
                LocalErrorView::TmuxError { message: "tmux new-session failed: "@ + complaint },
            )
            &&& send_keys_failure(run) == Some(
                LocalErrorView::TmuxError { message: "tmux send-keys failed: "@ + complaint },
            )
            &&& pipe_pane_failure(run) == Some(
                LocalErrorView::TmuxError { message: "tmux pipe-pane failed: "@ + complaint },
            )
            &&& unavailable(run) == Some(
                LocalErrorView::TmuxError { message: "tmux not available"@ },
            )
        },
        run matches Run::NotRun { error } ==> {
            &&& create_failure(run) == Some(
                LocalErrorView::TmuxError { message: "failed to create session: "@ + error@ },
            )
            &&& send_keys_failure(run) == Some(
                LocalErrorView::TmuxError { message: "failed to send keys: "@ + error@ },
            )
            &&& pipe_pane_failure(run) == Some(
                LocalErrorView::TmuxError { message: "failed to pipe pane: "@ + error@ },
            )
            &&& kill_failure(run) == Some(
                LocalErrorView::TmuxError { message: "failed to kill session: "@ + error@ },
            )
            &&& unavailable(run) == Some(
                LocalErrorView::TmuxError { message: "tmux not found: "@ + error@ },
            )
        },
{
}

/// Ending a session fails exactly if tmux fails with another complaint than that
/// the session is not there.
pub proof fn law_only_a_missing_session_needs_no_ending(run: Run)
    ensures
        run matches Run::Exited { success: false, stderr, .. } ==> {
            let complaint = utf8_lossy(stderr@);
            let missing = exists|before: Seq<char>, after: Seq<char>|
                complaint == #[trigger] (before + "session not found"@ + after) || complaint == (
                before + "can't find session"@ + after);
            &&& missing ==> kill_failure(run) is None
            &&& !missing ==> kill_failure(run) == Some(
                LocalErrorView::TmuxError { message: "tmux kill-session failed: "@ + complaint },
            )
        },
{
    if let Run::Exited { success: false, stderr, .. } = run {
        let complaint = utf8_lossy(stderr@);
        law_held_text_stands_in_between(complaint, "session not found"@);
        law_held_text_stands_in_between(complaint, "can't find session"@);
        if holds_text(complaint, "can't find session"@) {
            let (before, after) = choose|before: Seq<char>, after: Seq<char>|
                complaint == #[trigger] (before + "can't find session"@ + after);
            let other = before + "session not found"@ + after;
        }
    }
}

/// A session exists exactly if tmux succeeds in finding it.
pub proof fn law_session_exists_where_tmux_finds_it(run: Run)
    ensures
        presence(run) == Ok::<bool, LocalErrorView>(true) <==> (run matches Run::Exited {
            success,
            ..
        } && success),
        presence(run) == Ok::<bool, LocalErrorView>(false) <==> (run matches Run::Exited {
            success,
            ..
        } && !success),
        run matches Run::NotRun { error } ==> presence(run) == Err::<bool, LocalErrorView>(
            LocalErrorView::TmuxError { message: "failed to check session: "@ + error@ },
        ),
{
}

/// A number that tmux answers is read as that number, whatever white space stands
/// around it.
pub proof fn law_numbers_are_read_from_answers(
    run: Run,
    n: u32,
    left: Seq<char>,
    right: Seq<char>,
)
    requires
        run matches Run::Exited { success: true, stdout, .. } && utf8_lossy(stdout@) == left
            + decimal(n as nat) + right,
        forall|k: int| 0 <= k < left.len() ==> is_space(#[trigger] left[k]),
        forall|k: int| 0 <= k < right.len() ==> is_space(#[trigger] right[k]),
    ensures
        pane_pid(run) == Ok::<Option<u32>, LocalErrorView>(Some(n)),
        pane_exit(run) == Ok::<Option<u32>, LocalErrorView>(Some(n)),
{
    let middle = decimal(n as nat);
    law_decimal_is_made_of_digits(n as nat);
    assert('0' <= middle[0] <= '9');
    assert('0' <= middle[middle.len() - 1] <= '9');
    law_trim_leaves_the_middle(left, middle, right);
    law_decimal_reads_back(n);
}

/// What a pane tells where tmux does not succeed: no process, no status, and an end;
/// and where tmux cannot be asked, an error.
pub proof fn law_panes_that_cannot_be_asked(run: Run)
    ensures
        run matches Run::Exited { success: false, .. } ==> {
            &&& pane_pid(run) == Ok::<Option<u32>, LocalErrorView>(None)
            &&& pane_exit(run) == Ok::<Option<u32>, LocalErrorView>(None)
            &&& pane_dead(run) == Ok::<bool, LocalErrorView>(true)
        },
        run matches Run::NotRun { error } ==> {
            &&& pane_pid(run) == Err::<Option<u32>, LocalErrorView>(
                LocalErrorView::TmuxError { message: "failed to get pane pid: "@ + error@ },
            )
            &&& pane_exit(run) == Err::<Option<u32>, LocalErrorView>(
                LocalErrorView::TmuxError { message: "failed to check pane status: "@ + error@ },
            )
            &&& pane_dead(run) == Err::<bool, LocalErrorView>(
                LocalErrorView::TmuxError { message: "failed to check pane status: "@ + error@ },
            )
        },
        run matches Run::Exited { success: true, .. } ==> pane_pid(run) is Ok && pane_exit(run)
            is Ok && pane_dead(run) is Ok,
{
}

/// `c` stands at `i` in `s` with nothing but white space around it.
pub open spec fn stands_alone(s: Seq<char>, c: char, i: int) -> bool {
    &&& 0 <= i < s.len()
    &&& s[i] == c
    &&& forall|k: int| 0 <= k < s.len() && k != i ==> is_space(#[trigger] s[k])
}

/// A pane that can be asked is dead where it answers with a single `1`, whatever white
/// space stands around it, and alive otherwise.
pub proof fn law_dead_panes_are_answered_with_one(run: Run)
    ensures
        run matches Run::Exited { success: true, stdout, .. } ==> pane_dead(run) == Ok::<
            bool,
            LocalErrorView,
        >(exists|i: int| #[trigger] stands_alone(utf8_lossy(stdout@), '1', i)),
{
    if let Run::Exited { success: true, stdout, .. } = run {
        lemma_one_stands_alone(utf8_lossy(stdout@));
    }
}

proof fn lemma_one_stands_alone(s: Seq<char>)
    ensures
        trim(s) == "1"@ <==> exists|i: int| #[trigger] stands_alone(s, '1', i),
{
    reveal_strlit("1");
    assert("1"@ =~= seq!['1']);
    if exists|i: int| #[trigger] stands_alone(s, '1', i) {
        let i = choose|i: int| #[trigger] stands_alone(s, '1', i);
        let left = s.take(i);
        let right = s.skip(i + 1);
        assert forall|k: int| 0 <= k < left.len() implies is_space(#[trigger] left[k]) by {
            assert(left[k] == s[k]);
        }
        assert forall|k: int| 0 <= k < right.len() implies is_space(#[trigger] right[k]) by {
            assert(right[k] == s[i + 1 + k]);
        }
        assert(s =~= left + seq!['1'] + right);
        law_trim_leaves_the_middle(left, seq!['1'], right);
    }
    if trim(s) == "1"@ {
        law_trim_takes_the_space_at_the_ends(s);
        let (i, j) = choose|i: int, j: int|
            #![trigger s.subrange(i, j)]
            {
                &&& 0 <= i <= j <= s.len()
                &&& trim(s) == s.subrange(i, j)
                &&& forall|k: int| 0 <= k < i || j <= k < s.len() ==> is_space(#[trigger] s[k])
                &&& i < j ==> !is_space(s[i]) && !is_space(s[j - 1])
            };
        assert(s.subrange(i, j).len() == 1);
        assert(s.subrange(i, j)[0] == '1');
        assert(stands_alone(s, '1', i));
    }
}

/// Names as tmux lists them, one per line.
pub open spec fn one_per_line(names: Seq<Seq<char>>) -> Seq<char>
    decreases names.len(),
{
    if names.len() == 0 {
        Seq::empty()
    } else {
        names[0].push('\n') + one_per_line(names.skip(1))
    }
}

proof fn lemma_lines_of_names(names: Seq<Seq<char>>)
    requires
        forall|i: int|
            0 <= i < names.len() ==> !(#[trigger] names[i]).contains('\n') && !names[i].contains(
                '\r',
            ),
    ensures
        text_lines(one_per_line(names)) == names,
    decreases names.len(),
{
    if names.len() == 0 {
        law_lines_one_by_one(Seq::empty(), Seq::empty());
        assert(names =~= Seq::empty());
    } else {
        let rest = names.skip(1);
        assert forall|i: int| 0 <= i < rest.len() implies !(#[trigger] rest[i]).contains('\n')
            && !rest[i].contains('\r') by {
            assert(rest[i] == names[i + 1]);
        }
        lemma_lines_of_names(rest);
        let name = names[0];
        if name.len() > 0 {
            assert(name.contains(name[name.len() - 1]));
        }
        law_lines_one_by_one(name, one_per_line(rest));
        assert(seq![name] + rest =~= names);
    }
}

/// The sessions that tmux prints, one per line, are listed as they are: all of them,
/// in order.
pub proof fn law_printed_sessions_are_listed(run: Run, names: Seq<Seq<char>>)
    requires
        run matches Run::Exited { success: true, stdout, .. } && utf8_lossy(stdout@)
            == one_per_line(names),
        forall|i: int|
            0 <= i < names.len() ==> !(#[trigger] names[i]).contains('\n') && !names[i].contains(
                '\r',
            ),
    ensures
        listed_sessions(run) == Ok::<Seq<Seq<char>>, LocalErrorView>(names),
{
    lemma_lines_of_names(names);
}

/// Where tmux fails to list sessions, there are none exactly if it complains that no
/// server is running or that there are no sessions; anything else is an error.
pub proof fn law_no_sessions_without_a_server(run: Run)
    ensures
        run matches Run::Exited { success: false, stderr, .. } ==> {
            let complaint = utf8_lossy(stderr@);
            let none = exists|before: Seq<char>, after: Seq<char>|
                complaint == #[trigger] (before + "no server running"@ + after) || complaint == (
                before + "no sessions"@ + after);
            &&& none ==> listed_sessions(run) == Ok::<Seq<Seq<char>>, LocalErrorView>(Seq::empty())
            &&& !none ==> listed_sessions(run) == Err::<Seq<Seq<char>>, LocalErrorView>(
                LocalErrorView::TmuxError { message: "tmux list-sessions failed: "@ + complaint },
            )
        },
        run matches Run::NotRun { error } ==> listed_sessions(run) == Err::<
            Seq<Seq<char>>,
            LocalErrorView,
        >(LocalErrorView::TmuxError { message: "failed to list sessions: "@ + error@ }),
{
    if let Run::Exited { success: false, stderr, .. } = run {
        let complaint = utf8_lossy(stderr@);
        law_held_text_stands_in_between(complaint, "no server running"@);
        law_held_text_stands_in_between(complaint, "no sessions"@);
        if holds_text(complaint, "no sessions"@) {
            let (before, after) = choose|before: Seq<char>, after: Seq<char>|
                complaint == #[trigger] (before + "no sessions"@ + after);
            let other = before + "no server running"@ + after;
        }
    }
}

/// Any number that tmux answers is the one that its text denotes without the white
/// space around it, and none where it denotes none.
pub proof fn law_answers_denote_numbers(run: Run)
    ensures
        run matches Run::Exited { success: true, stdout, .. } ==> pane_pid(run) == Ok::<
            Option<u32>,
            LocalErrorView,
        >(u32_value(trim(utf8_lossy(stdout@)))) && pane_exit(run) == Ok::<
            Option<u32>,
            LocalErrorView,
        >(u32_value(trim(utf8_lossy(stdout@)))),
{
}

} // verus!
