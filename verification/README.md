# mumblebot

Audio plumbing of a voice bot, with its decisions verified in Verus.

- `src/` is the verified library: the voice caps (`caps`), the element chains of
  the capture and playback pipelines (`pipeline`), the bus watch that runs a
  pipeline until it ends (`bus`), the routing of voice packets to playback slots
  (`router`), the handling of captured samples (`sample`) and the spatializer
  settings (`spatial`). The bus watch and the router are state machines: a driver
  performs each requested action and feeds back what happened.
- `app/` drives those state machines with GStreamer, futures channels and the
  native OVR Audio library.
- `tests/` exercises the library on concrete values.
