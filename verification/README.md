# noah_desktop

The decision logic of a desktop IT-support assistant, written in Verus and
proved against its contracts: what the assistant does with the model's
answers, which tool calls need the user's approval, which files a tool may
read, how a long conversation is compressed, how a playbook's state machine
advances, which health categories a fleet policy scans, how a phone pairs
with the desktop, and the texts the assistant reports.

## Layout

- `src/` — the verified library, one module per concern:
  - `text`, `json`, `order` — strings, JSON values and stable sorting, with
    the specifications the rest is stated in;
  - `shell`, `host_info`, `tool_output` — dangerous-command detection, file
    access policies, and the texts the system tools report;
  - `tools`, `linux_tools`, `windows_tools` — the tool registry, each tool's
    name, description, input schema and safety tier;
  - `llm`, `prompts`, `context`, `sessions`, `turn`, `assistant_ui` — the
    model requests and answers, the system prompt, history compression, the
    session store, the assistant loop's decisions and the UI payloads;
  - `playbooks`, `playbook_runtime` — the playbook registry and the playbook
    state machines;
  - `fleet_policy`, `dashboard`, `consumer`, `health`, `autoheal`,
    `proactive`, `mobile`, `reports` — fleet enrollment and policy, the
    consumer account, health checks and reports, auto-heal, proactive
    suggestions, phone pairing, and exports;
  - `laws` — properties that span several functions, as proof functions.
- `tests/` — tests that run the library.
- `app/` — a headless runner: it drives the assistant loop against the model
  API on a Linux host, running the tools the model asks for.

Verify with `verus` on `src/lib.rs`; every function of the library carries a
contract that Verus checks.
