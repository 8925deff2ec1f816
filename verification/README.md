# DSH Launcher

A desktop launcher for the `@deepseek-ai/dsh` web service, with its decisions verified in Verus.

- `src/` is the library. Every command is a step on the launcher's state that yields a list of
  effects; checks that need several answers are asked one question at a time. The contracts say
  exactly which effects and which state follow, and `src/laws.rs` and the `law_` functions of the
  other modules state what holds across commands: readiness is reported once per start, a restart
  is silent and drops only the selected page, the service's whole process tree is ended, what was
  saved is loaded again, only the tray menu quits.
- `app/` is the program around it: windows, processes, files and the page bounds.
- `tests/` runs the library on concrete values.

Trusted are the URL parser (`url::Url::parse`, in `src/address.rs`) and the lossy decoding of
process output (`String::from_utf8_lossy`, in `src/command.rs`).
