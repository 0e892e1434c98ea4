# mac_storage_clear

The verified core of a disk visualizer and cleanup tool for macOS.

`src/` is checked by Verus. It holds the decisions and bookkeeping of the
tool: the scan writer's state machine with APFS clone detection by
`(dev, inode)`, the walk's descent rules, the delete run's accounting and its
`/Users/` guard (which resolves `..` before comparing), quarantine naming,
retention, restore and purge, the checks before an administrator-elevated
delete, the path-access scopes, the
privileged-operation backends, the helper's reply, the cleanup categories
and their queries, the statements run against the index, and the index's
migration plan.

`app/` is the shell around it: the SQLite index (`rusqlite`), the parallel
walk (`jwalk`) and the writer thread fed over a channel, the filesystem
operations, and a command line that prints results as JSON.

`tests/` exercises the library on concrete values.
