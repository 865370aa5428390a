# llm_manager

The decision logic of a terminal UI that manages local LLM models (search and download
from the hub, load and unload through a llama.cpp server, settings, profiles, benchmarks),
written in Verus: every function states what it does in its contract, and Verus proves
each against it. The exceptions are the few calls into std and outside crates (the clock,
the local calendar, lower-casing, regular expressions, JSON parsing, path names,
ratatui's layout split), each behind a small wrapper marked `external_body` whose contract is taken on trust and
says in its doc comment what it claims.

- `src/` — the verified library.
  - Text and input: `text` (characters, UTF-8 widths, decimal parsing and printing),
    `clock` (the local time, written `YYYY-MM-DD HH:MM:SS`),
    `editor` (the multi-line text editor), `keys`, `nav`.
  - Panels and their keys: `key_router` (every key press), `panels`, `panel_keys`,
    `panel_help`, `mouse`, `screen_layout`, `models_list`, `search`, `files_view`, `download_list`,
    `settings_panel`, `setting_steps`, `server_settings`, `settings_lists`, `rpc_workers`,
    `bench`, `bench_setup`, and the dialogs under `overlay/`.
  - Models and the server: `model_state`, `server_flow` (loading, serving, stopping),
    `model_sync` (what a router server reports), `loading` (load phases read from the
    server log), `logbook` (the application log and failed loads), `server_log`,
    `metrics_poll`, `task_results`, `ticks`, `endpoints`, `backends`, `downloads`, `catalogue`,
    `model_profiles`, `settings_sync`, `templates`, `websearch`, `parsing`.
  - Laws that span functions are public proof functions named `law_*`.
- `tests/` — tests on concrete values, run against the compiled library.
- `app/` — the program around the library: terminal input, files, clipboard, network.
