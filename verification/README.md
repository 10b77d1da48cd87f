# ducker

A real-time side-chain ducker ("make it quack"): program audio is turned down
while a side-chain signal is hot, and a synthesised quack plays when the
ducking kicks in.

- `src/` is the verified library (Verus): the parameter store, the engine
  thread's state machine, the choice of stream configurations from what the
  devices report, device-name listing and lookup, the routing of interleaved
  frames, the meter cadence, the quack retrigger hysteresis and the button
  debounce. Each public function has a contract; the `law_*` proof functions
  state properties that span calls.
- `app/` is the program around it: audio devices and streams (cpal),
  threads and channels (crossbeam-channel), the window (eframe/egui) and the
  floating-point signal path.
- `tests/` runs the library on concrete values.
