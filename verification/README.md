# loom_server_local

Runs weavers on this machine and shows them as pods. A weaver is a tmux session
that runs loom, with a directory of its own for what is kept about it.

- `src/` is the library: every decision of the backend, verified with Verus.
  An operation is a function of its request and of the facts learnt so far; it
  asks for one more fact, or is done (`src/progress.rs`).
- `app/` carries the steps out: the disk, tmux, git, terminals and JSON.
- `tests/` runs the library on concrete values, with a machine that exists only
  in the test.

| module | what it holds |
| --- | --- |
| `client` | the requests: start, create, delete, get, list, logs, terminals, namespace, tokens, and the laws that relate them |
| `weaver` | a weaver's record, its state, and how both are kept and found |
| `tmux`, `shell` | calls of tmux and what they answer; the command line of a weaver |
| `pod`, `pod_builder` | pods, selectors, and the pod that shows a weaver |
| `log_follower`, `pty` | logs that grow, and terminals |
| `config`, `error` | settings and paths; errors |
| `text`, `text_map`, `path`, `time`, `byte_string` | what the rest is built on |
