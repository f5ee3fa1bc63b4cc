# quest_makepad_camera_shell

Verified logic of the Quest Makepad camera shell, a headset app that shows the
two passthrough cameras on a projection panel and talks to the manifold
broker.

- `src/` is the library, checked by Verus: marker text, websocket framing and
  the broker handshake, camera source and capture size selection, camera pair
  selection and updates, stereo frame pairing and adoption, the paired import
  state machine, panel binding, cadence counters, breath and pose client
  rules, and the Camera2 probe's setup and first-frame bookkeeping.
- `tests/` exercises the library on concrete values.
- `app/` is a host-side driver for the two broker clients (breath feedback
  subscriber and controller pose publisher); it does the socket I/O and JSON
  handling and leaves every framing and selection decision to the library.

The Makepad UI, the Android NDK camera calls and the floating-point projection
geometry stay outside the library.
