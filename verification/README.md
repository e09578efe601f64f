# kitty_cad_backend

A local backend for a CAD modeling client. Modeling commands arrive over a
WebSocket; a session keeps the entities (paths, faces, solids, edges,
planes), the sketch paths, the selection, the camera and the units, and
answers each command.

- `src/` is the verified library (Verus): the session model and its view,
  the dispatch of every modeling command with a contract over that view,
  the answers to WebSocket messages, the sketch-path rules, error texts,
  and the server configuration. Geometry (real arithmetic and B-rep
  modeling) sits behind the `GeometryKernel` trait, whose methods have no
  contracts: the session logic is verified for whatever the kernel
  returns, and the contracts say which kernel call, on which arguments,
  produced each value that comes from it, not what that value is. `src/laws.rs` states and
  proves the properties that hold across commands, among them that every
  command keeps the entity graph well formed, provided the identifiers
  it creates are fresh (random identifiers that collide with existing
  ones are outside that law).
- `app/` is the server: HTTP routes, the WebSocket loop, the serde copies
  of the protocol types, and the kernel over OpenCASCADE.
- `tests/` runs the library with a stand-in kernel.
