# illumos_host

The illumos audio host: listing devices, finding out what they can do, building
output streams and feeding them. The logic is verified with Verus and does no
input or output of its own.

- `src/` is the library. An operation that has to talk to the mixer or to a `dsp`
  device is a conversation: `request` says what to ask, `step` takes the answer and
  gives either the next state or the outcome. The worker that feeds an output stream
  (`src/worker.rs`) has `action` and `step` in the same way. Functions named `law_*`
  state what holds over whole conversations and over everything a worker is told.
- `tests/` runs the library against scripted devices.
- `app/` carries the requests out with the `illumos_audio` crate, which is not on
  crates.io: `app/` builds where that crate is at hand.
