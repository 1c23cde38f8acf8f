# world_sandbox

A small first-person viewer of a glTF scene, rendered with wgpu in a winit
window. The crate is split in two:

- `src/` — the verified library (Verus): movement-key bindings and the held-key
  state (`control`), the decisions taken on window and surface events
  (`engine::state`), the preparation of image bytes for upload as textures
  (`engine::texture`), the triangle indices of a building (`world::building`),
  and the choice of a model's images and the merging of its mesh parts'
  indices (`world::planet`). Each public function states its result in its
  contract; the laws of these parts are public proof functions beside them.
- `app/` — the program: window, GPU and file work, and the camera, lights and
  transforms, which compute in floating point. It reads the WGSL shader from
  `render/shader.wgsl` at start-up.
