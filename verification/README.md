# herdr integration core

The verified part of herdr's integration handling: which plugin-owned
integration providers exist and in what order they are listed, what their
status files mean, how an install or uninstall of a provider is planned and
concluded, the environment a provider command runs with, the replies of the
integration API requests, the build identity (channel, build id, version,
update manifests) and the initial host terminal capabilities.

- `src/` is the library, verified with Verus. Everything that reads the file
  system, runs processes, or depends on how the binary was compiled is handed
  in as plain values (`StatusObservation`, `CommandHost`, the raw build
  values, the platform).
- `src/laws.rs` holds the properties proved across functions.
- `tests/` runs the library on concrete values.
- `app/` is the binary around it: build-time values, status file reading and
  JSON parsing, running provider commands, JSON encoding of replies.
