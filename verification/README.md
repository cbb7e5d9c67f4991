# workspace_bridge

A local workspace bridge: a desktop application that serves a folder of the
user's machine to MCP clients over JSON-RPC, optionally through an ngrok
tunnel. This crate is its core, verified with Verus.

## Layout

- `src/` — the verified library.
  - `config.rs`: the settings and their defaults.
  - `paths.rs`: confinement of requested paths to the workspace folder
    (lexical resolution of `.` and `..`, normalisation, the workspace check),
    with the laws that accepted paths stay in the workspace and that
    resolution is idempotent.
  - `pattern.rs`: regular expressions, run by the `regex` crate.
  - `server.rs`: the server state (running flag, workspace, tunnel address,
    bounded log) and the decisions of starting and stopping.
  - `rpc.rs`: JSON-RPC dispatch, the tool catalogue, the tool calls and the
    answers made from the outcome of file operations, with their laws.
  - `text.rs`: character-level string helpers (lines, joining, decimal text).
- `app/` — the program around the library: the desktop commands, HTTP and
  JSON handling, file and process I/O. It converts between JSON values and the
  library's plain types and performs the file operations the library names.
- `tests/` — tests of the library on concrete values.

A request is handled in two steps: `rpc::handle_mcp_request` records it and
either answers it or names a file operation on a path already confined to the
workspace; the program performs the operation and hands its outcome to
`rpc::finish_tool_call`, which makes the answer.
