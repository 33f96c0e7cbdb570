# wiremix

The core of a terminal mixer for PipeWire, written in Verus: the logic
is proved against its contracts, and the parts that talk to the terminal,
the file system and the command line sit around it.

## Layout

- `src/` - the verified library.
  - `channel_pairing` groups a node's channel positions into left/right
    pairs and single channels (greedy pairing, proved unique).
  - `config` - settings, command-line overrides, the checks that turn a
    configuration file into settings; `config::char_set` and
    `config::theme` hold the built-in glyph sets and themes and merge
    configured ones over them; `config::matching` parses and evaluates
    property conditions (regular expressions through the `regex` crate).
  - `object_list` - selection, channel cursor, scrolling, paging, the
    target dropdown and which objects are on screen.
  - `node_widget`, `meter`, `area` - the decisions behind drawing a node's
    row: sizes, marks, styles, where its parts go, the meter's zones,
    screen areas.
  - `layout` - splitting an area into parts down its rows or across its
    columns, through `ratatui`'s constraint layout.
  - `hidden_state` - the permanently hidden items.
- `app/` - ordinary Rust around the library: command-line parsing
  (`clap`), reading the configuration and state files (`serde`, `toml`),
  the floating-point settings and the meter scaling, and helpers that draw
  the peak meters, dividers, selected-row highlights and scroll marks with
  `ratatui`. The list, node and volume widgets are not part of it.
- `tests/` - tests of the library, run against the real outside crates.

## Trusted code

The library's calls into `regex` and `ratatui` sit behind a few small
`#[verifier::external_body]` wrappers, each with a doc comment saying
what its contract assumes.
