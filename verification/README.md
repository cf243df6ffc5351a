# cliente_vr_pandasz

Verified core of an Android VR client that streams the phone camera (H.264
over TCP) and the head orientation (UDP) to a PC, and draws a side-by-side
stereo frame.

- `src/` — the Verus library: wire formats (`protocolo`), stereo layout
  (`estereo`), the camera stream state machine (`transmision`), the encoder
  settings (`codificador`) and the decisions of the host loops (`ciclo`).
- `tests/` — tests on concrete values.
- `app/` — the Android host: JNI, NDK camera/encoder/sensor calls, sockets,
  EGL/GL drawing; it follows the library's decisions.
