# herdr-harness-coordinator

Local coordination for one Supervisor Harness and its autonomous Worker Harnesses: the
versioned public contract, the broker envelope, the MCP tool bridge, Worker Session reuse, the
launch profile registry, the Worker Host's decisions, and the Supervisor popup.

The library under `src/` is verified with Verus. Each public function states what it returns
in its contract, and the library's laws stand as proof functions beside the code they speak of.

| module | what it holds |
|---|---|
| `contract` | v1 public values, Harness IDs, UUID identities |
| `validation` | the v1 rules each public value is checked against |
| `coordinator` | error categories, actors, Session capabilities, commands and queries |
| `broker` | framing limits, envelope versions, request admission, response shaping |
| `mcp` | MCP message dispatch, tool routing, tool catalog, tool results |
| `session_reuse` | when a native Worker Session may be reused |
| `profile` | launch profiles (schema 1 and 2), `PATH` search for bare executables, snapshot digests, directory loading |
| `worker_host` | a Worker Host's decisions: profile checks, environment, delivery, cancellation |
| `views` | Dashboard read-model projections |
| `host` | popup rows, ranking, stable selection, Worker prompts |
| `popup` | what each key press does in the popup |
| `render` | the popup's text: titles, rows, detail lines, snapshot |
| `text`, `ordering`, `keyed` | byte-level text rules, lexical order, keyed maps |

`app/` is the command-line program around the library: JSON and TOML encodings, the Unix
socket client, the MCP stdio loop, and the ratatui popup.
