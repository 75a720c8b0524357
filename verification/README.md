# meshd

Control-plane library of a mesh daemon that bridges iroh node identities to a
WireGuard IP overlay, verified with Verus.

- `src/` — the verified library: overlay addressing (`overlay_ip`), node
  identities (`endpoint`), the peer table (`peer`), handshake and discovery
  decisions (`protocol`, `discovery`), the IPC protocol (`ipc`), SPIRE and
  data-fabric stubs (`spire`, `zenoh_fabric`), WireGuard command plans
  (`wireguard`), provisioning bundles (`bundle`), the operator CLI's
  rendering (`cli`), start-up decisions (`daemon`) and text helpers (`text`).
- `app/` — the programs around it (`meshd`, `provision`, `fabric-cli`):
  networking, sockets, processes, files and serialization.
- `tests/` — tests of the library.
