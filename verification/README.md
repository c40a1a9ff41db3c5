# linkd

A local-development link daemon keeps packages synced into the projects that
consume them. This crate is its decision core, written in Verus: every
function in `src/` carries a contract that Verus proves.

## Layout

- `src/` — the verified library.
  - `text`, `paths`, `order`: characters, `Path` semantics on Unix (joins,
    components, parents, the order of paths) and their laws.
  - `fs`: an `FsView`, the observations of the file system that every
    decision reads; the caller fills it.
  - `manifest`, `json`: reading package names from manifests.
  - `npm`, `composer`, `python`, `go`, `cargo`, `jvm`, `dart`, `dotnet`,
    `ruby`, `swift`, `elixir`: one module per ecosystem (detection, package
    name, sync target, completion markers, hints).
  - `listing`: which files of a package are synced, sorted as paths.
  - `validate`: source and target of a link are never the same or nested.
  - `allowlist`, `dispatch`, `adapters`: link resolution across ecosystems
    and where a sync may write.
  - `monitor`, `wizard`, `cli`: the state machines and decisions behind the
    terminal interfaces and the commands; `screen`: the text of the monitor's
    and the wizard's screens.
- `tests/` — tests of the library on concrete values.
- `app/` — the `linkd` command: reads the file system and the environment,
  calls the library and prints.
