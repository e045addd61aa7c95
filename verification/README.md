# uni-runtime

A command-line manager of isolated Linux environments (Ubuntu, Debian,
Fedora, RHEL, Arch Linux, openSUSE) built from container images or as
lightweight `proot` trees.

- `src/` is the verified library:
  - `distro.rs`: the supported distributions and their identifiers, images,
    package managers and release files;
  - `config.rs`: environments and the configuration (lookup, add, remove,
    default) and the field-by-field reading of older configuration files;
  - `json.rs`: JSON documents as plain values, read through `serde_json`,
    with verified member, array and text access;
  - `runner.rs`: what creating, setting up, entering and running commands in
    an environment decides (paths, file contents, process plans, outcomes);
  - `cli.rs`: the commands' checks and printed output, and where snapshots
    are kept and copied;
  - `text.rs`: string operations with their specifications.
- `app/` holds the program: argument parsing, the configuration file, and the
  processes and file-system work.
- `tests/` runs the library on concrete values.
