# waymux

The logic of a Wayland session compositor that runs a desktop without a screen:
it answers a control socket, composites windows, records them, and streams them
to a browser. The library in `src/` is verified with Verus. It does no I/O. Where
work has to be done outside (a driver call, a spawned process, a file), a state
machine in the library names the next action and takes what came of it.

## Layout

- `src/codec.rs`, `msgpack.rs`, `messages.rs`, `control.rs`, `events.rs`: the frames and
  messages of the control socket, and what each request leads to.
- `src/record_path.rs`, `record_start.rs`, `viewer.rs`, `audio.rs`: where
  recordings may be written, and how a recording, a viewer and the session's
  sound directories come up and go down.
- `src/composite.rs`, `buffer.rs`, `screenshot.rs`, `nv12.rs`, `nv12_dump.rs`:
  pixels.
- `src/dmabuf.rs`, `readback.rs`, `egl.rs`, `gbm.rs`, `modifier_query.rs`: GPU
  buffers, the formats that are advertised, and the ways to read a buffer back.
- `src/cuda.rs`, `nvenc.rs`, `nvenc_session.rs`, `frame_encode.rs`, `ffv1.rs`:
  the encoders' parameters and the order of their driver calls.
- `src/compositor.rs`, `surface.rs`, `subsurface.rs`, `clipboard.rs`,
  `screencopy.rs`, `plasma.rs`, `advert.rs`, `attach.rs`: the protocol side.
- `src/bytes.rs`, `text.rs`: byte order and numerals.
- `app/`: sockets, files and shared memory around the library, the calls into
  EGL, GBM, CUDA and NVENC that its state machines ask for, and the messages'
  serialised forms.
- `tests/`: tests that run the library.

## What is trusted

Three functions call outside crates and are not verified: two of
`src/screenshot.rs` encode a PNG file with `png` and read the `Debug` form of a
shared memory format of `wayland-server`, and one of `src/msgpack.rs` reads a
MessagePack value with `rmp-serde` and writes it with `rmpv`. Their doc comments
say what is claimed of them.
