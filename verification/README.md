# rusty_browser

The state and decisions of a small desktop web browser, verified with Verus.

- `src/` is the verified library: browsing history (visits, search, pruning,
  import and bookmark export), sessions and crash recovery, tabs, windows and
  back/forward navigation, the control panel's panels, the update functions of
  the browser front ends, input state, frame buffers and the frame queue, window
  layout, the development server's routing, and the model registry. Each public
  function states its result in `ensures`; the `law_*` proof functions state
  what holds across calls.
- Outside crates are reached through a few trusted wrappers in `src/clock.rs`,
  `src/text.rs` and `src/render.rs` (uuid, chrono, crossbeam-channel and
  `str::to_lowercase`); their doc comments say what is assumed of each call.
- `app/` is the unverified program around the library: it reads and writes the
  stored history and sessions, runs the web view process and carries out the
  effects that the library's update functions return.
- `tests/` exercises the library on concrete values.

Times are nanoseconds since the Unix epoch, negative before it.
