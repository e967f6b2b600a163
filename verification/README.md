# highrock_engine

The decision-making core of a small wgpu/winit game engine, verified with Verus.

- `src/runner.rs`: the application state machine (engine present or not, scene handed
  out once, what each window event and each idle moment leads to).
- `src/frame_clock.rs`: frame counting and the ring of the latest frame round-trip times.
- `src/surface.rs`: surface format choice, surface size and resizing, frame skipping on
  surface errors, texture copy layout.
- `src/config.rs`: renderer configuration, its preferred surface format and the graphics
  debugging it asks for.
- `src/texture.rs`: decoding an image into an RGBA texture upload.
- `src/input.rs`, `src/gui.rs`: input decisions and the GUI frame state.
- `src/scene.rs`: the scene trait and the game's entry.

`app/` is the program around it: window, GPU, GUI and event loop.

`app/` reads its shaders (`assets/shaders/`) and texture (`assets/textures/`) at run time
from the `assets/` directory next to `Cargo.toml`.
