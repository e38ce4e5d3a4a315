# rich_presence_wrapper

Discord rich presence for editors (helix, zed), for music players (the
music bridge, fed by `playerctl`, a file or a program) and for any editor
that speaks the language server protocol.

The decisions are a library verified with Verus; the program around it does
the I/O.

- `src/` — the verified library.
  - `activity`: the presence as the library describes it.
  - `editor`, `rpc`, `programs`, `paths`: what the editor commands show,
    and how they find the real editor binary and its working directory.
  - `lsp`: the language server's state; after each event it says whether the
    presence is shown, left alone or cleared.
  - `music`: the music bridge's modules (filter, rewrite, fixup-id,
    track-position, auto-stop), their order, and the listening presence.
  - `playerctl`, `metadata`: the metadata lines `playerctl` prints and the
    records they become.
  - `mpris`: the transformer and stages of the MPRIS bridge.
  - `mailbox`: the one-slot channel between pipeline stages.
  - `backoff`, `discord`: reconnection delays, and which IPC errors are worth
    a reconnection.
  - `text`, `keyed`, `time`, `hashing`, `pattern`, `util`: shared helpers;
    `pattern` reaches the `regex` crate.
- `tests/` — tests of the library on concrete values.
- `app/` — the program: argument parsing, configuration, logging, processes,
  sockets and timers.
