# filthy_rich

A Discord Rich Presence client whose core is verified with Verus.

- `src/` is the verified library: the activity builder and its checks
  (`types/builder.rs`), the activity model and the payloads sent to Discord
  (`types/activity.rs`, `types/payloads.rs`), the data Discord sends back
  (`types/data.rs`), the IPC framing (`frame.rs`, over the `bytes` buffers
  declared in `buffers.rs`), the search for the IPC socket (`pipe.rs`), the
  decisions of the background session (`session.rs`) and the clock (`time.rs`).
- `app/` is the asynchronous runtime around it: the runner's `tokio` task, the
  client handle, the socket I/O, and the JSON wire format with `serde`.
- `tests/` runs the library on concrete values.
