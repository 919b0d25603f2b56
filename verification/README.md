# ikigai-repo

Git, `gh`, and `cargo` as ikigai resources: the **platform seam** for development tooling,
with its decisions verified by Verus.

A capability-gated **exec** endpoint runs an *allowlisted* tool with an **argument vector**
(never a shell string), and typed **facades** sit over it:

| resource | what it is |
|----------|------------|
| `urn:system:exec` | run an allowlisted tool (`git`/`gh`/`cargo`/`just`) with `tool=` + `args=` (one argument per line) + `dir=`; gated on `urn:cap:exec:{tool}` |
| `urn:repo:status` | the working tree's status (`git status --porcelain=v1 -b`) |
| `urn:repo:log` | recent history (`git log --oneline -20`), or JSON |
| `urn:repo:branch` | the current branch |
| `urn:repo:list` | the repositories under a directory |
| `urn:repo:pr:list` | the pull requests, most recently updated first |
| `urn:repo:pr:view`, `:files`, `:diff`, `:checks` | one pull request |

Two layers gate every call: the **allowlist** (the outer bound: an unknown tool is refused
before a process is spawned) and the **capability** (the inner bound).

## Layout

- `src/` is the verified library. It decides what may be run, builds the argument vectors,
  reads what the tools wrote and describes the endpoints; it performs no I/O.
  - `host` reads a call off the kernel's invocation; `call` is the call itself, `args` reads
    its arguments, `run` holds the gates and says what a run came to.
  - `facade` holds the endpoints that run a tool, with `argv` for their argument vectors,
    `log` and `json` for the structured history, `list` for the listing of repositories.
  - `describe` and `catalog` are the self-descriptions, `repr` is what is served, `space`
    binds the endpoints to their identifiers.
  - `laws` states what holds of the endpoints as a whole.
- `app/` serves the space to a kernel: it runs the processes and reads the directories.
- `tests/` runs the library, with the kernel's own invocations.
