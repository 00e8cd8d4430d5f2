# dotnet_buildpack

The build-time logic of a Cloud Native Buildpack for .NET applications, written in Verus:
each function states its behaviour as a contract and the verifier proves it.

- `src/` is the library. It discovers the application source of a directory (solution,
  project or file-based app), reads solution files, project metadata and `global.json`,
  derives the .NET SDK version requirement (kept together with the text it was parsed
  from), decides how an SDK download is retried and whether a cached SDK is reused, reads the buildpack configuration from the
  environment and `project.toml`, builds the `dotnet publish` and `dotnet test` command
  lines, describes the layers' environment, detects the launch processes of a published
  solution, and writes the messages shown when a build fails. `src/inventory_updater.rs`
  holds the SDK inventory updater's comparison of inventories, its changelog texts and the
  grouping and wording of its release announcements.
- `app/` is the program around it: the `libcnb` buildpack entry point, file access, the
  serde readers of the file formats, the layers, and the inventory updater's I/O.
- `tests/` exercises the library.
