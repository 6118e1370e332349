# audio_service

The audio service of a remote desktop, with its decisions verified by Verus.

- `src/` is the verified library. It decides which device to capture from
  (`device`), at which rate and layout to encode (`format`), how capture is set up
  (`play`) and kept running (`capture`, `pa`), how samples are converted
  (`convert`, `sample`), buffered (`buffer`), framed and sent on (`stream`), cut for
  the encoder (`encode`), held back when silent (`gate`), merged and mixed (`merge`,
  `mix`), and what subscribers are told (`message`). The state that all parts share
  is in `state`.
- `app/` does the outside work: devices, the Opus encoder, connections, threads, and
  what computes with floating-point numbers. The library asks for it by actions and
  takes the results as events.
- `tests/` runs the library on concrete values.

A sample is held by the encoding of its single-precision number. The conversions
from a device's integer samples are `dasp`'s; what is trusted of them is stated in
`src/convert.rs`.
