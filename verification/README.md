# quadwm

A 3D spatial Wayland compositor: client windows are textured quads in a
virtual space, a fly camera moves through it, and a crosshair aims input at
the window it points to.

- `src/` is the verified library, the compositor's decisions:
  - `keys`: evdev scancodes of keys and mouse buttons;
  - `input`: which surface holds keyboard focus;
  - `movement`: which camera movement keys are held;
  - `session`: the input routing state machine (pointer capture, focus,
    forwarding of clicks and keys, camera steering);
  - `crosshair`: choice of the window the crosshair hits, pointer extent;
  - `texture`: when a window's texture is made, reused or left alone, and
    the placeholder texture.
- `app/` runs it: winit window and event loop, smithay Wayland server, wgpu
  renderer, and the floating-point camera and ray casting (glam).
- `tests/` exercises the library.
