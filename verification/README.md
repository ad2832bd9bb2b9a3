# rtunes

A terminal music player: local library scanning, playback with shuffle and repeat,
real-time audio visualizers, downloads through yt-dlp, and a keyboard-driven interface.

## Layout

- `src/` — the verified library (Verus). Every public function carries a contract.
  - `events.rs`, `dispatch.rs` — application state and the key handler (`dispatch_key`),
    specified key by key; `laws.rs` proves properties across presses (cycles, what undoes
    what, which keys quit, and that every key keeps the state consistent).
  - `state.rs`, `config.rs` — tracks, modes and their config spellings; the starting state
    built from the configuration; which setting a key press saves.
  - `library.rs`, `scanner.rs`, `paths.rs` — folder bookkeeping, rescans, file-name rules,
    path prefixes.
  - `player.rs` — shuffle generator and what plays when a track ends.
  - `fetcher.rs`, `downloads.rs`, `pool.rs`, `cli.rs` — URL checks, helper-binary names,
    download progress, the bounded download queue and command-line decisions.
  - `theme.rs`, `color.rs`, `view.rs`, `status.rs` — themes, colors, and the text the screen
    shows.
- `app/` — the program around the library: terminal, audio, file system, processes, network,
  and the floating-point visualizers.
- `tests/` — tests of the library.
