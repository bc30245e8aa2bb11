# ws2tcp_local_ffi

The C interface of ws2tcp-local, with its rules verified by Verus.

- `src/` is the verified library: the state behind a proxy handle (`handle.rs`), the
  settings that `config_json` describes (`settings.rs`), the reading of C string arguments
  (`cstr.rs`), the log lines for the C callback (`logging.rs`), text that C can read
  whole (`text.rs`) and the numbers C receives (`codes.rs`).
- `app/` exports the `extern "C"` functions: it follows the pointers, parses
  `config_json`, runs the proxy of `ws2tcp-local-core` on a tokio runtime, and installs the
  `tracing` subscriber that feeds the log callback.
- `tests/` runs the library on concrete values.
