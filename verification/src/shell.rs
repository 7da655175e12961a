//! The command line typed into a weaver's session, and how a shell reads it.
use crate::config::{ConfigView, LocalConfig};
use crate::text::{lemma_split_on_nonempty, split_on, split_text};
use vstd::prelude::*;
use vstd::string::*;

verus! {

/// The parts with `sep` between each two.
pub open spec fn join_with(parts: Seq<Seq<char>>, sep: Seq<char>) -> Seq<char>
    decreases parts.len(),
{
    if parts.len() == 0 {
        Seq::empty()
    } else if parts.len() == 1 {
        parts[0]
    } else {
        join_with(parts.drop_last(), sep) + sep + parts.last()
    }
}

/// A value as it stands between single quotes: each single quote in it closes
/// the quotation, stands escaped, and opens the quotation again.
pub open spec fn quoted(value: Seq<char>) -> Seq<char> {
    join_with(split_on(value, '\''), "'\\''"@)
}

/// One variable set on the command line.
pub open spec fn assignment(name: Seq<char>, value: Seq<char>) -> Seq<char> {
    name + "='"@ + quoted(value) + "' "@
}

/// All variables set on the command line.
pub open spec fn assignments(env: Seq<(Seq<char>, Seq<char>)>) -> Seq<char>
    decreases env.len(),
{
    if env.len() == 0 {
        Seq::empty()
    } else {
        assignments(env.drop_last()) + assignment(env.last().0, env.last().1)
    }
}

/// The command line that starts loom in a session.
pub open spec fn loom_command_line(
    config: ConfigView,
    env: Seq<(Seq<char>, Seq<char>)>,
) -> Seq<char> {
    "exec env "@ + assignments(env) + "LOOM_SERVER_URL='"@ + config.server_url + "' "@
        + config.loom_command
}

/// A value as it stands between single quotes.
pub fn quote_value(value: &str) -> (text: String)
    ensures
        text@ == quoted(value@),
{
    let parts = split_text(value, '\'');
    let ghost pieces = split_on(value@, '\'');
    let mut text = parts[0].clone();
    let mut i: usize = 1;
    assert(pieces[0] == parts@[0]@);
    assert(pieces.take(1) =~= seq![pieces[0]]);
    while i < parts.len()
        invariant
            1 <= i <= parts.len(),
            parts.deep_view() == pieces,
            text@ == join_with(pieces.take(i as int), "'\\''"@),
        decreases parts.len() - i,
    {
        text.append("'\\''");
        text.append(parts[i].as_str());
        assert(pieces[i as int] == parts@[i as int]@);
        assert(pieces.take(i + 1).drop_last() =~= pieces.take(i as int));
        assert(pieces.take(i + 1).last() == pieces[i as int]);
        i = i + 1;
    }
    assert(pieces.take(pieces.len() as int) =~= pieces);
    text
}

/// All variables set on the command line.
pub fn env_assignments(env_vars: &[(String, String)]) -> (text: String)
    ensures
        text@ == assignments(env_vars.deep_view()),
{
    let ghost env = env_vars.deep_view();
    let mut text = String::new();
    let mut i: usize = 0;
    assert(env.take(0) =~= Seq::empty());
    while i < env_vars.len()
        invariant
            i <= env_vars@.len(),
            env == env_vars.deep_view(),
            text@ == assignments(env.take(i as int)),
        decreases env_vars@.len() - i,
    {
        let ghost before = text@;
        let value = quote_value(env_vars[i].1.as_str());
        text.append(env_vars[i].0.as_str());
        text.append("='");
        text.append(value.as_str());
        text.append("' ");
        assert(env[i as int] == env_vars@[i as int].deep_view());
        assert(env.take(i + 1).drop_last() =~= env.take(i as int));
        assert(env.take(i + 1).last() == env[i as int]);
        assert(text@ =~= before + assignment(env[i as int].0, env[i as int].1));
        i = i + 1;
    }
    assert(env.take(env.len() as int) =~= env);
    text
}

/// The command line that starts loom in a session.
pub fn command_line(config: &LocalConfig, env_vars: &[(String, String)]) -> (text: String)
    ensures
        text@ == loom_command_line(config@, env_vars.deep_view()),
{
    let mut text = "exec env ".to_owned();
    text.append(env_assignments(env_vars).as_str());
    text.append("LOOM_SERVER_URL='");
    text.append(config.server_url.as_str());
    text.append("' ");
    text.append(config.loom_command.as_str());
    text
}

/// How far a shell has read a command line: the words before, the word that it
/// is in, and whether the next character is quoted.
pub struct Reading {
    pub words: Seq<Seq<char>>,
    pub word: Option<Seq<char>>,
    pub in_quotes: bool,
    pub escaped: bool,
    /// Whether only words were read so far, and nothing that a shell would take
    /// for an operator, an expansion or a pattern.
    pub plain: bool,
}

/// Characters that mean nothing but themselves to a shell.
pub open spec fn is_ordinary(c: char) -> bool {
    ||| 'a' <= c <= 'z'
    ||| 'A' <= c <= 'Z'
    ||| '0' <= c <= '9'
    ||| c == '_' || c == '-' || c == '.' || c == '/' || c == ':' || c == '=' || c == ',' || c == '+'
        || c == '@' || c == '%'
}

pub open spec fn all_ordinary(s: Seq<char>) -> bool {
    forall|i: int| 0 <= i < s.len() ==> is_ordinary(#[trigger] s[i])
}

impl Reading {
    pub open spec fn start() -> Reading {
        Reading {
            words: Seq::empty(),
            word: None,
            in_quotes: false,
            escaped: false,
            plain: true,
        }
    }

    /// The word that the shell is in, empty where it is in none.
    pub open spec fn current(self) -> Seq<char> {
        match self.word {
            Some(word) => word,
            None => Seq::empty(),
        }
    }

    /// One character further.
    pub open spec fn step(self, c: char) -> Reading {
        if self.in_quotes {
            if c == '\'' {
                Reading { in_quotes: false, ..self }
            } else {
                Reading { word: Some(self.current().push(c)), ..self }
            }
        } else if self.escaped {
            Reading { word: Some(self.current().push(c)), escaped: false, ..self }
        } else if c == '\'' {
            Reading { word: Some(self.current()), in_quotes: true, ..self }
        } else if c == '\\' {
            Reading { word: Some(self.current()), escaped: true, ..self }
        } else if c == ' ' {
            self.end_word()
        } else if is_ordinary(c) {
            Reading { word: Some(self.current().push(c)), ..self }
        } else {
            Reading { plain: false, ..self }
        }
    }

    /// At the end of the word, if the shell is in one.
    pub open spec fn end_word(self) -> Reading {
        match self.word {
            Some(word) => Reading { words: self.words.push(word), word: None, ..self },
            None => self,
        }
    }

    /// All characters of `s` further.
    pub open spec fn read(self, s: Seq<char>) -> Reading
        decreases s.len(),
    {
        if s.len() == 0 {
            self
        } else {
            self.read(s.drop_last()).step(s.last())
        }
    }

    /// Between two words, with nothing but words read so far.
    pub open spec fn between_words(self) -> bool {
        self.word is None && !self.in_quotes && !self.escaped && self.plain
    }
}

/// The words that a shell reads in a command line, if it is made of words alone.
pub open spec fn shell_words(line: Seq<char>) -> Option<Seq<Seq<char>>> {
    let reading = Reading::start().read(line);
    if reading.plain && !reading.in_quotes && !reading.escaped {
        Some(reading.end_word().words)
    } else {
        None
    }
}

/// The words that set the variables of a weaver.
pub open spec fn assignment_words(env: Seq<(Seq<char>, Seq<char>)>) -> Seq<Seq<char>> {
    env.map_values(|var: (Seq<char>, Seq<char>)| var.0 + "="@ + var.1)
}

proof fn lemma_read_on(reading: Reading, a: Seq<char>, b: Seq<char>)
    ensures
        reading.read(a + b) == reading.read(a).read(b),
    decreases b.len(),
{
    if b.len() == 0 {
        assert(a + b =~= a);
    } else {
        lemma_read_on(reading, a, b.drop_last());
        assert((a + b).drop_last() =~= a + b.drop_last());
    }
}

proof fn lemma_read_ordinary(reading: Reading, s: Seq<char>)
    requires
        all_ordinary(s),
        s.len() > 0,
        !reading.in_quotes,
        !reading.escaped,
    ensures
        reading.read(s) == (Reading { word: Some(reading.current() + s), ..reading }),
    decreases s.len(),
{
    let front = s.drop_last();
    assert(is_ordinary(s[s.len() - 1]));
    assert(forall|i: int| 0 <= i < front.len() ==> front[i] == s[i]);
    if front.len() > 0 {
        lemma_read_ordinary(reading, front);
        assert((reading.current() + front).push(s.last()) =~= reading.current() + s);
    } else {
        assert(front =~= Seq::empty());
        assert(reading.read(front) == reading);
        assert(reading.current().push(s.last()) =~= reading.current() + s);
    }
}

proof fn lemma_join_with_longer_last(parts: Seq<Seq<char>>, sep: Seq<char>, c: char)
    requires
        parts.len() > 0,
    ensures
        join_with(parts.drop_last().push(parts.last().push(c)), sep) == join_with(parts, sep).push(
            c,
        ),
{
    let longer = parts.drop_last().push(parts.last().push(c));
    assert(longer.drop_last() =~= parts.drop_last());
    assert(join_with(longer, sep) =~= join_with(parts, sep).push(c));
}

/// `quoted`, one character at a time.
proof fn lemma_quoted_step(value: Seq<char>)
    requires
        value.len() > 0,
    ensures
        value.last() == '\'' ==> quoted(value) == quoted(value.drop_last()) + "'\\''"@,
        value.last() != '\'' ==> quoted(value) == quoted(value.drop_last()).push(value.last()),
{
    let before = split_on(value.drop_last(), '\'');
    lemma_split_on_nonempty(value.drop_last(), '\'');
    if value.last() == '\'' {
        let after = before.push(Seq::<char>::empty());
        assert(after.drop_last() =~= before);
        assert(join_with(after, "'\\''"@) =~= join_with(before, "'\\''"@) + "'\\''"@);
    } else {
        lemma_join_with_longer_last(before, "'\\''"@, value.last());
    }
}

/// Between single quotes a shell reads a quoted value as the value.
proof fn lemma_read_quoted(reading: Reading, value: Seq<char>)
    requires
        reading.in_quotes,
        !reading.escaped,
        reading.word is Some,
    ensures
        reading.read(quoted(value)) == (Reading {
            word: Some(reading.current() + value),
            ..reading
        }),
    decreases value.len(),
{
    if value.len() == 0 {
        assert(split_on(value, '\'') =~= seq![Seq::<char>::empty()]);
        assert(quoted(value) =~= Seq::empty());
        assert(reading.current() + value =~= reading.current());
        assert(reading.word == Some(reading.current()));
    } else {
        let front = value.drop_last();
        lemma_read_quoted(reading, front);
        lemma_quoted_step(value);
        let c = value.last();
        let mid = reading.read(quoted(front));
        assert((reading.current() + front).push(c) =~= reading.current() + value);
        if c == '\'' {
            reveal_strlit("'\\''");
            let escape = "'\\''"@;
            lemma_read_on(reading, quoted(front), escape);
            assert(escape =~= seq!['\'', '\\', '\'', '\'']);
            assert(escape.drop_last() =~= seq!['\'', '\\', '\'']);
            assert(escape.drop_last().drop_last() =~= seq!['\'', '\\']);
            assert(escape.drop_last().drop_last().drop_last() =~= seq!['\'']);
            assert(escape.drop_last().drop_last().drop_last().drop_last() =~= Seq::<char>::empty());
            let r0 = mid.read(Seq::<char>::empty());
            assert(r0 == mid);
            let r1 = mid.read(seq!['\'']);
            assert(r1 == mid.step('\''));
            let r2 = mid.read(seq!['\'', '\\']);
            assert(r2 == r1.step('\\'));
            let r3 = mid.read(seq!['\'', '\\', '\'']);
            assert(r3 == r2.step('\''));
            let r4 = mid.read(escape);
            assert(r4 == r3.step('\''));
        } else {
            assert(quoted(value).drop_last() =~= quoted(front));
        }
    }
}

proof fn lemma_no_quotes(value: Seq<char>)
    requires
        !value.contains('\''),
    ensures
        quoted(value) == value,
    decreases value.len(),
{
    if value.len() == 0 {
        assert(quoted(value) =~= value);
    } else {
        let front = value.drop_last();
        assert forall|i: int| 0 <= i < front.len() implies front[i] != '\'' by {
            assert(front[i] == value[i]);
        }
        assert(value[value.len() - 1] == value.last());
        lemma_no_quotes(front);
        lemma_quoted_step(value);
        assert(front.push(value.last()) =~= value);
    }
}

/// A shell between two words reads `name='…' ` as the one word `name=value`.
proof fn lemma_read_assignment(reading: Reading, name: Seq<char>, value: Seq<char>)
    requires
        reading.between_words(),
        all_ordinary(name),
    ensures
        reading.read(assignment(name, value)).between_words(),
        reading.read(assignment(name, value)).words == reading.words.push(name + "="@ + value),
{
    reveal_strlit("='");
    reveal_strlit("=");
    reveal_strlit("' ");
    let target = name + "="@;
    assert(all_ordinary(target)) by {
        assert forall|i: int| 0 <= i < target.len() implies is_ordinary(#[trigger] target[i]) by {
            if i < name.len() {
                assert(target[i] == name[i]);
            }
        }
    }
    let open = target.push('\'');
    assert(name + "='"@ =~= open);
    assert(assignment(name, value) =~= open + quoted(value) + "' "@);
    lemma_read_on(reading, open + quoted(value), "' "@);
    lemma_read_on(reading, open, quoted(value));
    lemma_read_ordinary(reading, target);
    assert(open.drop_last() =~= target);
    let r1 = reading.read(open);
    assert(r1 == reading.read(target).step('\''));
    assert(reading.current() + target =~= target);
    lemma_read_quoted(r1, value);
    let r2 = r1.read(quoted(value));
    let close = "' "@;
    assert(close =~= seq!['\'', ' ']);
    assert(close.drop_last() =~= seq!['\'']);
    assert(close.drop_last().drop_last() =~= Seq::<char>::empty());
    let r3 = r2.read(seq!['\'']);
    assert(r2.read(Seq::<char>::empty()) == r2);
    assert(r3 == r2.step('\''));
    assert(r2.read(close) == r3.step(' '));
}

proof fn lemma_read_assignments(reading: Reading, env: Seq<(Seq<char>, Seq<char>)>)
    requires
        reading.between_words(),
        forall|i: int| 0 <= i < env.len() ==> all_ordinary((#[trigger] env[i]).0),
    ensures
        reading.read(assignments(env)).between_words(),
        reading.read(assignments(env)).words == reading.words + assignment_words(env),
    decreases env.len(),
{
    if env.len() == 0 {
        assert(reading.words + assignment_words(env) =~= reading.words);
    } else {
        let front = env.drop_last();
        assert(forall|i: int| 0 <= i < front.len() ==> front[i] == env[i]);
        lemma_read_assignments(reading, front);
        lemma_read_on(
            reading,
            assignments(front),
            assignment(env.last().0, env.last().1),
        );
        assert(env[env.len() - 1] == env.last());
        lemma_read_assignment(reading.read(assignments(front)), env.last().0, env.last().1);
        assert(assignment_words(env) =~= assignment_words(front).push(
            env.last().0 + "="@ + env.last().1,
        ));
        assert((reading.words + assignment_words(front)).push(env.last().0 + "="@ + env.last().1)
            =~= reading.words + assignment_words(env));
    }
}

proof fn lemma_read_after_words(reading: Reading, s: Seq<char>)
    requires
        reading.between_words(),
    ensures
        ({
            let there = reading.read(s);
            let fresh = Reading::start().read(s);
            &&& there == (Reading { words: reading.words + fresh.words, ..fresh })
        }),
    decreases s.len(),
{
    if s.len() == 0 {
        assert(reading.words + Seq::<Seq<char>>::empty() =~= reading.words);
    } else {
        lemma_read_after_words(reading, s.drop_last());
        let fresh = Reading::start().read(s.drop_last());
        if fresh.word is Some {
            assert(reading.words + fresh.words.push(fresh.word->0) =~= (reading.words
                + fresh.words).push(fresh.word->0));
        }
    }
}

/// A shell reads the command line of a weaver as the words `exec` and `env`, one
/// word `name=value` for each variable whatever the value holds, the server URL,
/// and the words of the loom command.
pub proof fn law_shell_reads_the_environment_back(
    config: ConfigView,
    env: Seq<(Seq<char>, Seq<char>)>,
)
    requires
        forall|i: int| 0 <= i < env.len() ==> all_ordinary((#[trigger] env[i]).0),
        !config.server_url.contains('\''),
        shell_words(config.loom_command) is Some,
    ensures
        shell_words(loom_command_line(config, env)) == Some(
            seq!["exec"@, "env"@] + assignment_words(env) + seq![
                "LOOM_SERVER_URL="@ + config.server_url,
            ] + shell_words(config.loom_command)->0,
        ),
{
    let start = Reading::start();
    let head = "exec env "@;
    let url = config.server_url;
    let command = config.loom_command;
    reveal_strlit("exec env ");
    reveal_strlit("exec");
    reveal_strlit("env");
    let r1 = start.read(head);
    assert(r1.between_words() && r1.words == seq!["exec"@, "env"@]) by {
        let exec_word = "exec"@;
        let env_word = "env"@;
        assert(head =~= (exec_word.push(' ') + env_word).push(' '));
        assert(all_ordinary(exec_word));
        assert(all_ordinary(env_word));
        lemma_read_ordinary(start, exec_word);
        assert(start.current() + exec_word =~= exec_word);
        assert(exec_word.push(' ').drop_last() =~= exec_word);
        let a = start.read(exec_word.push(' '));
        assert(a == start.read(exec_word).step(' '));
        lemma_read_on(start, exec_word.push(' '), env_word);
        lemma_read_ordinary(a, env_word);
        assert(a.current() + env_word =~= env_word);
        let both = exec_word.push(' ') + env_word;
        assert(both.push(' ').drop_last() =~= both);
        assert(r1 == start.read(both).step(' '));
        assert(r1.words =~= seq!["exec"@, "env"@]);
    }
    lemma_read_on(start, head, assignments(env));
    lemma_read_assignments(r1, env);
    let r2 = start.read(head + assignments(env));
    // The URL is one more assignment, whose value needs no quoting.
    let name = "LOOM_SERVER_URL"@;
    reveal_strlit("LOOM_SERVER_URL");
    reveal_strlit("LOOM_SERVER_URL=");
    reveal_strlit("LOOM_SERVER_URL='");
    reveal_strlit("='");
    reveal_strlit("=");
    assert(all_ordinary(name));
    lemma_no_quotes(url);
    assert(name + "='"@ =~= "LOOM_SERVER_URL='"@);
    assert(name + "="@ =~= "LOOM_SERVER_URL="@);
    let setting = assignment(name, url);
    lemma_read_assignment(r2, name, url);
    lemma_read_on(start, head + assignments(env), setting);
    let r3 = start.read(head + assignments(env) + setting);
    assert(r3 == r2.read(setting));
    lemma_read_on(start, head + assignments(env) + setting, command);
    lemma_read_after_words(r3, command);
    assert(loom_command_line(config, env) =~= head + assignments(env) + setting + command);
    let fresh = start.read(command);
    let there = start.read(loom_command_line(config, env));
    assert(there == (Reading { words: r3.words + fresh.words, ..fresh }));
    let lead = seq!["exec"@, "env"@] + assignment_words(env);
    assert(r2.words =~= lead);
    assert(r3.words =~= lead + seq!["LOOM_SERVER_URL="@ + url]);
    assert(there.end_word().words =~= r3.words + fresh.end_word().words);
}

/// Quoting goes character by character: what is quoted in two parts is quoted as a
/// whole, a text without quotes stands for itself, and a quote is closed, escaped
/// and opened again.
pub proof fn law_quoting_goes_by_characters(a: Seq<char>, b: Seq<char>)
    ensures
        quoted(a + b) == quoted(a) + quoted(b),
        !a.contains('\'') ==> quoted(a) == a,
        quoted(seq!['\'']) == seq!['\'', '\\', '\'', '\''],
    decreases b.len(),
{
    reveal_strlit("'\\''");
    assert("'\\''"@ =~= seq!['\'', '\\', '\'', '\'']);
    let none = Seq::<char>::empty();
    lemma_no_quotes(none);
    lemma_quoted_step(seq!['\'']);
    assert(seq!['\''].drop_last() =~= none);
    assert(quoted(seq!['\'']) =~= seq!['\'', '\\', '\'', '\'']);
    if !a.contains('\'') {
        lemma_no_quotes(a);
    }
    if b.len() == 0 {
        assert(a + b =~= a);
        assert(b =~= none);
        assert(quoted(a) + quoted(b) =~= quoted(a));
    } else {
        law_quoting_goes_by_characters(a, b.drop_last());
        assert((a + b).drop_last() =~= a + b.drop_last());
        lemma_quoted_step(a + b);
        lemma_quoted_step(b);
        assert(quoted(a + b) =~= quoted(a) + quoted(b));
    }
}

/// The command line, for any names, any URL and any command: `exec env `, each
/// variable in order as its name and its quoted value, the URL as it is, and the
/// command as it is.
pub proof fn law_command_line_text(
    config: ConfigView,
    env: Seq<(Seq<char>, Seq<char>)>,
    name: Seq<char>,
    value: Seq<char>,
)
    ensures
        loom_command_line(config, Seq::empty()) == "exec env LOOM_SERVER_URL='"@
            + config.server_url + "' "@ + config.loom_command,
        exists|head: Seq<char>|
            #![trigger head + "LOOM_SERVER_URL='"@]
            {
                let tail = "LOOM_SERVER_URL='"@ + config.server_url + "' "@ + config.loom_command;
                &&& loom_command_line(config, env) == head + "LOOM_SERVER_URL='"@
                    + config.server_url + "' "@ + config.loom_command
                &&& loom_command_line(config, env.push((name, value))) == head + (name + "='"@
                    + quoted(value) + "' "@) + tail
            },
{
    reveal_strlit("exec env ");
    reveal_strlit("LOOM_SERVER_URL='");
    reveal_strlit("exec env LOOM_SERVER_URL='");
    let none = Seq::<(Seq<char>, Seq<char>)>::empty();
    assert(assignments(none) =~= Seq::<char>::empty());
    assert("exec env "@ + "LOOM_SERVER_URL='"@ =~= "exec env LOOM_SERVER_URL='"@);
    assert(loom_command_line(config, none) =~= "exec env LOOM_SERVER_URL='"@ + config.server_url
        + "' "@ + config.loom_command);
    let head = "exec env "@ + assignments(env);
    let more = env.push((name, value));
    assert(more.drop_last() =~= env);
    let tail = "LOOM_SERVER_URL='"@ + config.server_url + "' "@ + config.loom_command;
    assert(loom_command_line(config, env) =~= head + "LOOM_SERVER_URL='"@ + config.server_url
        + "' "@ + config.loom_command);
    assert(loom_command_line(config, more) =~= head + (name + "='"@ + quoted(value) + "' "@)
        + tail);
}

} // verus!
