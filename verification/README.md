# kiri

The verified core of the Kiri desktop session.

- `src/` is the library, verified with Verus:
  - `notify`: desktop notifications (`Notification`, its hints, urgency levels)
    and the filter that picks `Notify` calls out of the monitored bus traffic;
  - `config`: the session configuration and the path of its file;
  - `cli`: the arguments of the `d5` session manager;
  - `bus`: bus handles and the manager that files them by bus name, with its
    map model and the laws of adding, looking up and removing handles;
  - `service`: the state behind the `com.fyralabs.d5` interface;
  - `session`: the session leader's command line, split into program and
    arguments with `shell-words`;
  - `compositor`: decisions of the `gyaku` compositor and the `kiri` launcher:
    backend selection, input routing, seat devices, pointer buttons, grabs,
    commits, window events and frames.
- `app/` is the `d5` program around it: command line, reading and parsing the
  configuration file, D-Bus connections and interfaces, logind, the leader process.
- `tests/` runs the library on concrete values.

The `gyaku` compositor and the `kiri` launcher are not carried as programs in
`app/`: their glue works on smithay's objects (seats, spaces, renderers,
backends), and this crate does not depend on smithay. The decisions they take on
plain values (backend choice, input routing, seat devices, pointer buttons,
grabs, commits, window events, frames) are verified in `src/compositor.rs`; the
documentation of each says what it leaves to that glue, and no program calls
them yet.

`nix` is named in `Cargo.toml` though no source names it: `zbus` needs its
`user` feature to build and does not ask for it itself. `zvariant` is named for
the derives in `app/notify.rs` (`Type`, `SerializeDict`, `DeserializeDict`):
the code they generate refers to the `zvariant` crate by name.
