# irid

A small game framework built on winit and wgpu, whose decisions are
verified with Verus.

- `src/` is the verified library: the window configuration, its
  builder and its file format, vertex buffer layouts, the camera controller's key handling,
  the render plan (bind group order, render pass commands, instance grid,
  surface sizing), the texture size grid and upload layout, image loading
  over the `image` crate, mesh assembly, the shader and pipeline
  descriptor builders, and the event loop's reactions to events.
- `app/` runs it: the winit event loop, the wgpu renderer, file reading,
  the OBJ loader and the floating-point camera. It asks the library for
  the event loop's reactions, the render plan, the texture grid and the
  descriptors; a few settings stay with it (the texture cell drawn, the
  default clear colour, the camera speed, the culling).
- `tests/` exercises the library on concrete values.
