# zed_julia

The logic of the Julia extension for the Zed editor, verified with Verus.

- `src/` is the library. `env` handles environment variables (Windows names
  match without regard to ASCII case), `settings` the language server settings,
  `paths` the managed storage paths, runtime cache keys and the server's depot
  chain, `launch` the command lines of Julia and JETLS, `version` the version
  checks, `storage` the generation names, the `current` pointer, the install
  stamp and which paths a cleanup removes, `labels` the completion and symbol labels, and
  `start` the start of the managed server as a state machine: it asks for one
  action at a time (run a command, create a directory, replace a file, ...)
  and moves on with the event that answers it.
- `app/` is the Zed extension itself: it implements `zed::Extension`, performs
  the actions of the state machine against the host, the file system and
  processes, lists the storage directories for the cleanup and removes the
  paths the library picks.
- `tests/` holds the tests of the library.
