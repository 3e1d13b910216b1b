# cognyx_runtime

The runtime layer of CognyxOS as a verified library: resource quotas,
runtime network policy, VM disk storage, virtual machine and container
backends, execution runtimes for Linux, Windows and macOS, remote workers and
artifact transfer, plugins, and the universal capability layer with its
providers. Verus checks the functions of `src/` against their contracts; the
calls into outside crates stand behind trusted wrappers whose
doc comments say what is assumed of them.

Layout:

- `src/` — the library, checked by Verus. Each module states its data as
  mathematical values (views and spec functions) and its operations as
  `requires`/`ensures` contracts; the public `law_*` proof functions state
  properties that span several operations.
- `tests/` — ordinary Rust tests of the library on concrete values.
- `app/` — the host side: the asynchronous provider interface and the
  capability layer's loop, file, process, clipboard and browser work, the GUI
  test mode's environment and files, and values that carry floating-point
  measurements. It performs what the library decides.
