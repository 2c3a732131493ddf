# flutter_engine

The logic of a desktop window that hosts a Flutter engine, verified with Verus.

- `src/input.rs`: window events, keys, buttons and modifiers as plain values.
- `src/pointer.rs`: pointer events, and the order in which an engine accepts them.
- `src/text.rs`: the edits that keys and characters stand for.
- `src/window.rs`: the state of a window and its answer to each event.
- `src/runtime.rs`: requests to the main thread from other threads.
- `src/engines.rs`: the engines of all windows.
- `src/laws.rs`: what holds of all of these together.
- `app/`: the GLFW window, the Tokio runtime and the shared state around the
  library; it reads the window, performs the actions that the library returns,
  and does the floating-point arithmetic that they spell out.
- `tests/`: tests of the library.
