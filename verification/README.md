# omarchy-nix-daemon

The daemon behind Omarchy Cinque's package commands on NixOS. Clients send one
JSON request per line over `/run/omarchy/daemon.sock`; the daemon resolves Arch
package names to nixpkgs attributes, keeps the desired package set in
`/var/lib/omarchy/state.json`, generates the NixOS module that installs it,
runs `nixos-rebuild switch`, and keeps `/run/omarchy/packages.json` up to date.

## Layout

- `src/` — the library, verified with Verus:
  - `alias.rs`: the Arch → nixpkgs alias tables and `resolve`, with the laws
    that the tables are disjoint and that resolving is idempotent;
  - `state.rs`: the package set and its updates, with the laws that removing
    undoes adding and that updates keep names unique;
  - `rebuild.rs`: module generation (with the laws that the module has one
    line per package and determines the package set), the flake reference, and
    the steps of a rebuild as a state machine (the previous package set is
    written back on failure, the manifest refreshed on success);
  - `pkg.rs`: adding and removing packages as a state machine driving the
    rebuild; requests that queue up while a rebuild runs are handled as one
    batch with one save and one rebuild. Its laws say what is saved, when
    success is answered, and that an answered batch leaves state.json with the
    planned set after success and the loaded set after failure;
  - `handlers.rs`, `manifest.rs`, `json.rs`, `protocol.rs`, `text.rs`: the
    answers to the simple requests, the package manifest, the parts of JSON
    documents that the daemon reads, the socket messages, and text helpers.
- `app/` — the executable: socket, files, commands, JSON encoding, logging.
  It queues package requests, performs the actions that the library's state
  machines ask for and hands back what came of them.
- `tests/` — tests of the library on concrete values.
