# webcodex

The decision logic of two parts of WebCodex, written and verified with Verus:

- the Runner service on OpenRC hosts: which service manager looks after it, the
  `openrc-run` script that is rendered for it, and how it is installed,
  controlled, inspected and removed (`src/openrc/`);
- OAuth dynamic client registration (RFC 7591) for MCP clients
  (`src/registration/`).

`src/` decides; it touches neither files nor the network. Programs are run
through an executor that the caller brings, and a `Journal` takes down every run
and how it ended, so that contracts can say which runs are made and what follows
from each outcome. Where files, the storage or an HTTP request are concerned,
each step of the logic demands one thing of its caller and takes the report on
it. `app/` is that caller: it carries the demands out on the host and in the
server.

| Module | What it holds |
| --- | --- |
| `chars`, `text`, `decimal`, `path` | characters, strings, numbers and paths |
| `journal` | the executor, and the record of its runs |
| `process` | runs of programs, and what is said when one fails |
| `openrc::manager` | choosing the service manager |
| `openrc::script` | the init script |
| `openrc::tools` | the runs of rc-service and rc-update, and their answers |
| `openrc::control`, `logs`, `status` | the installed service |
| `openrc::plan`, `install`, `uninstall` | installing and removing the service |
| `openrc::effects`, `course` | what undoing restores, and whole courses of steps |
| `registration::scopes`, `metadata` | what a client may ask for |
| `registration::client`, `error` | the client that is stored, and refusals |
| `registration::endpoint`, `course` | the endpoint step by step, and as a whole |
