# ghzinga

A terminal dashboard for one GitHub pull request or issue at a time, with its
logic written in Verus and proved against its contracts.

## Layout

- `src/` — the verified library.
  - `domain/` — references (`owner/repo#n`, web URLs), resources, actions,
    change fingerprints and the comparison of refreshed copies.
  - `github/` — reading what `gh` and the GitHub APIs return into the domain:
    DTO conversion, activity ordering, GraphQL queries and pagination, unified
    diffs, mutations, error summaries and the public REST fallback.
  - `app/` — the interface state: resource tabs, prompts, scrolling, expanded
    blocks, sessions, the comment editor, and the decisions taken on keys and
    links; `state_laws.rs` states what holds across those operations.
  - `input/` — click areas and hit testing.
  - `fetch.rs` — starting fetches (blocking, progressive, file diffs) and
    applying each stage's outcome to the tab it was begun from.
  - `cli.rs`, `config.rs`, `settings.rs`, `control.rs`, `herdr.rs`,
    `launch.rs`, `paths.rs`, `session.rs` — command line, configuration,
    display settings, the live-session control protocol, the Herdr plugin and
    saved sessions.
  - `text.rs`, `unicode.rs` — text helpers; display widths come from
    `unicode-width`.
- `tests/` — tests of the library from outside.
- `app/` — the program around it: argument parsing with clap, reading and
  writing the TOML configuration, running `gh`, and JSON decoding.
