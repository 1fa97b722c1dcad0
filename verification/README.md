# android_native_surface

A small OpenGL ES renderer that paints a procedural gradient texture
(texel `(i, j)` is `i * j % 255`) into an Android `SurfaceTexture` or a
desktop window.

- `src/` is the verified library (Verus): the gradient texture and its
  rows (`texture`), the renderer's state and what each frame
  sends to the GPU (`pure_gl`), the vertex layout and quad index order
  (`geometry`), shader status and info-log reporting (`shader`) and UTF-8
  decoding of driver strings (`text`).
- `app/` is the unverified glue: the desktop `main`, the JNI entry points,
  and the GL/glium calls that carry out what the library decides.
- The raw OpenGL ES calls go through the `gl` crate, which provides
  generated GL bindings; the renderer needs such bindings and no build
  script generates them here.
- `tests/` exercises the library on concrete values.
