# Win32 window helpers, verified

A small Win32 windowing toolkit whose decisions are proved with Verus.

- `src/` is the verified library: UTF-16 wide strings (`wide`), integer
  resource names and the predefined cursors (`resource`), error codes and
  their text (`error`), the meaning of each Win32 call's return value
  (`calls`), window data and the arguments of window creation (`window`),
  and the decisions of the demo window's procedure and message loop
  (`procedure`).
- `app/` is the Windows program around it: the raw `User32`/`Kernel32`
  bindings, `#[repr(C)]` copies of the structures, and the window procedure
  and message loop, which ask the library what every result means.
