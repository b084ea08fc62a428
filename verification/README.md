# wtl

An ATL-style `CWindow` for Win32, in which every decision is proved with
Verus.

- `src/` is the verified library. An operation that needs the window
  manager (centring a window, walking up to its top-level parent, searching
  its descendants for a control, resizing its client area, changing its
  style, reading its text, ...) is a state machine: it hands out a
  `request::Request`, takes the `request::Reply`, and decides the next call
  or its result. Rectangle arithmetic, style masks, UTF-16 text and the
  window-procedure thunks are plain verified functions.
- `app/` performs those requests with `user32`, `kernel32` and `shell32`
  (`system::run`), and offers the single-call `CWindow` methods of the
  Win32 API (`window::Window`). The Win32 crates only build on Windows.
- `tests/` drives the operations against scripted window trees.
