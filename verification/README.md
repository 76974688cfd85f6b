# stache_tiling

The tiling window manager of Stache, with its decision logic verified by Verus.

- `src/` is the verified library: the tiling state (screens, workspaces,
  tracked windows) and its lookups, the manager's commands as decisions on
  that state (switching, focusing, swapping, sending and tracking windows,
  following screens as they come and go, creating workspaces), answers to
  state queries, border bookkeeping and the `JankyBorders` command protocol,
  event coalescing, drag tracking, and the state machines of the platform
  monitors. Each public function states what it returns or changes;
  properties that relate several operations are proof functions named
  `law_*`.
- `app/` is the macOS side: Accessibility and AppKit calls, screen detection,
  layout geometry, split ratios and animation (all floating point), and the
  global manager that runs each command by asking the library what to change
  and then moving, hiding and focusing windows.
- `tests/` exercises the library on concrete values.
