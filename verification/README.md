# jack2

A binding for the [JACK Audio Connection Kit](https://jackaudio.org) whose decisions are
verified with [Verus](https://github.com/verus-lang/verus).

- `src/` is the verified library: the flag and status types, the bookkeeping of the ports a
  client owns and of what the process thread sees, the order of the calls that activate a
  client (and undo a failed activation), the conversion of the raw values the server reports
  in its callbacks, transport positions, metadata values and the checks on names handed to the
  C API. Each public function states its result in its contract, except the two that hand
  the port table to the process thread (`publish_ports`, `release_unregistered`), whose outcome
  depends on that thread; the laws that relate several functions are public proof functions.
- `app/` loads libjack at run time, makes the C calls, installs the C callbacks and runs the
  asynchronous tasks on the main thread; it hands the library plain values and acts on what
  the library decides.
- `tests/` runs the library on concrete values.
