# pixi_logic

The decisions behind several commands and reports of pixi, written in Verus:
executable Rust whose contracts are proved.

- `src/` is the library.
  - `build_script`, `globs`: build scripts of ROS packages, and which files count
    as their sources.
  - `release`, `self_update`: where releases are found and how the program
    replaces itself, as steps that ask for work and take up what came of it.
    `self_update_laws` states what holds of every run.
  - `lock_file`, `match_spec`, `why_not`: why a version of a package cannot be
    had. `why_not_laws` states what holds of every query.
  - `package`, `errors`, `conversions`, `failures`: what goes wrong when
    environments are solved and packages are built, and the report on it.
  - `transactions`, `install_reporter`, `sync_reporter`: what progress bars and
    users are shown. `reporter_laws` states what holds of it.
  - `azure`: the options of an Azure channel.
  - `text`, `urls`, `version`: texts, and what other crates make of them.
- `tests/` runs the library.
- `app/` is the code around it: requests, terminals, files and the types of
  other crates.

The contracts of functions marked `external_body` are believed and not proved.
Each of them calls into another crate and says what is relied on.
