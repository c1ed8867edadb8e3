# pages_rs

Tooling for serving a Rust web router from Node.js: a `pages` command that
creates and packs projects, Node.js add-ons that hand requests to the router
or expose it on a local socket, and a stand-alone example server.

The library (`src/`) is verified with Verus. It holds every decision and
data conversion:

- `text`: decimal formatting and path joining.
- `channel`: the local socket path, the loopback TCP fallback, the channel
  setup as an event-driven state machine, and the exports the add-on sets.
- `pipe`: the state of a Windows named-pipe listener and its accept loop.
- `http_types`, `bridge`: checking a JavaScript request against the HTTP
  crate's grammar and turning it into the bytes of an HTTP request head,
  and router responses back into a JavaScript response.
- `routes`: the greeting routes of the example server.
- `manifest`: reading `package.name` and editing the workspace manifest
  through `toml_edit`, stated over the documents' key trees.
- `task`, `new_project`, `pack`, `archive`, `cli`: the `new` and `pack`
  subcommands as state machines that ask a driver for each action, and the
  placement of files in the packed archive.

`app/` is the driver: argument parsing, processes, files, the async
runtime, axum and N-API.
