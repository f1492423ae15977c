# starlight

The core logic of the starlight Discord bot, written in Verus. Verus checks
all of `src/`: the public functions carry contracts that say what they return
or change, the laws that relate them stand as proof functions, and the helpers
without contracts of their own are checked to be free of panics and overflow.
The few calls into other crates go through small trusted functions whose
contracts say what those crates document.

- `permissions`, `calculator`: permission sets and the calculation of a guild
  member's permissions in the guild and in a channel.
- `mention`: formatting identifiers as mentions, parsing mentions back, and
  finding the mentions in a text.
- `lang`: language tables and filling in their messages.
- `nebula`, `args`, `constella`: identifier types and the stored form of values.
- `cache`: the cache's configuration, its entities and how they are made and
  updated from Discord values, the keys they are stored under, and the search
  for a guild's widget channel.
- `click`: the grammar of the `buttons` attribute of click commands and the
  items generated for it. Its tokens are Rust's: string literals with every
  escape (`\x..`, `\u{..}`, line continuations), raw strings `r"..."` and
  `r#"..."#`, literal suffixes, and comments. Identifiers are Unicode
  identifiers (`XID_Start` and `XID_Continue`, as the `unicode-ident` crate
  reports them).
- `paste`: identifiers of pasted language files.
- `proxy`: the errors of requests through the API proxy.
- `text`, `decimal`, `flags`, `model`: helpers on characters, decimal
  notation, flag sets, and the plain identifiers of the Discord model.

`app/` holds what talks to the outside world: reading language files from
disk, converting twilight-model values into the library's values, running the
widget channel search against a cache's stores, and placing pastes on disk.
`tests/` holds the tests.
