# voxtype-systray

A status icon for the panel of a Linux desktop that shows what the Voxtype daemon is doing, and a
window for its two everyday settings. What the program decides is a library that Verus verifies.

| Command | What it does |
|---------|--------------|
| `voxtype-systray` | shows the tray icon |
| `voxtype-systray settings` | opens the settings window |

The icon is red while the daemon is stopped, grey while it is idle, and green while a dictation or
a meeting is under way. The menu follows the state: it starts or stops a meeting, a dictation and
the daemon. The settings window edits `[meeting].storage_path` and `[meeting].retain_audio` in
`~/.config/voxtype/config.toml`; all other entries stay, in their order, and so do the comments.

## Layout

| Path | What is in it |
|------|---------------|
| `src/text.rs` | trimming, lines and searching in Unicode text |
| `src/state.rs` | the reports of the two status channels and the state that is shown |
| `src/meeting.rs` | reading the output of `voxtype meeting status` |
| `src/channels.rs` | what the two background tasks decide |
| `src/icon.rs` | PNG files as tray icons |
| `src/document.rs` | TOML documents, edited in place with `toml_edit` |
| `src/paths.rs` | where the configuration lives, and paths with a tilde |
| `src/config.rs` | reading and writing the two settings |
| `src/save.rs` | saving, one file operation at a time |
| `src/settings.rs` | the state of the settings window |
| `src/tray.rs` | icon, tooltip, menu and the commands behind it |
| `src/mode.rs` | the subcommand |
| `app/` | the program around the library: D-Bus, processes, files, the window |
| `tests/` | tests of the library |

What the library takes from outside crates stands behind functions marked
`#[verifier::external_body]`, each with a comment that says what is believed of the call.
