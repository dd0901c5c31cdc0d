# page_recording

Screen recordings of a browser page, driven over the Chrome DevTools Protocol: the
pace of the captured frames, the state of the recorder, the effects that are shown in
the recording (cursor, ripples, key labels, overlays, spotlight, zoom), the compositor
page, and the in-page cursor overlay.

- `src/` is the verified library. It decides and computes: configurations are read,
  commands and scripts are built, and everything that waits for the browser, the
  encoder or the clock is a state machine with a contract.
- `app/` is the asynchronous code around it: it sends the commands, runs `ffmpeg`,
  reads the clock, and drives the state machines. The floating-point interpolation of
  animations stands there too.
- `tests/` runs the library on concrete values.

Times are readings of a monotonic clock in nanoseconds that the caller passes in.
Coordinates and scales pass through the library as decimal texts or as a type of the
caller's.
