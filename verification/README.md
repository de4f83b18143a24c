# pexfetch

A command-line client for the Pexels photo and video API whose logic is
verified with Verus. Every command prints a JSON payload on stdout, or a
JSON error with a stable `kind` and exit code on stderr.

## Layout

- `src/` — the verified library.
  - `run.rs`: each command as a sequence of steps, `run(cli, env, state,
    event) -> (state, action)`; `step_spec` says what every step does.
  - `auth.rs`: config-file path, stored key, which credential is in
    effect, the key typed at the prompt.
  - `client.rs`: client settings from the environment, the API base rule
    (`https`, or `http` on loopback), the requests sent, the download cap.
  - `quality.rs`: photo qualities, video renditions (best by score, or by
    id), download file names and extensions.
  - `error.rs`: the error kinds, messages, exit codes, HTTP status mapping.
  - `payloads.rs`, `models.rs`: the printed payloads and the API's data.
  - `srcmap.rs`: the `src` map of a photo, kept sorted by key.
  - `text.rs`, `paths.rs`: strings, numbers, paths, and URL parsing.
  - `cli.rs`: the command tree, and the help and usage text of that tree
    (commands and descriptions, without options).
  - `laws.rs`: properties across functions and steps, proved.
- `app/` — the program: command-line parsing, environment, files, the
  terminal prompt and HTTP; it performs the actions that `run` returns.
- `tests/` — tests of the library, run with the real outside crates.
