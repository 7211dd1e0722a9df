# directx

A helper for creating a window for DirectX rendering on Windows, with the logic of the
window proved correct by Verus.

- `src/` is the verified library (`directx::window`): the window builder and the parameters
  of the Win32 and Direct3D calls that create the window (`builder.rs`), the UTF-16 wide
  strings those calls take (`wide.rs`), the decoding of window messages into events
  (`message.rs`, `keycode.rs`, `events.rs`) and the virtual-key codes (`vk.rs`).
- `app/` is the Windows side: the window thread, the Win32, Direct3D and COM calls, the
  window procedure and the event channel. It builds only for Windows targets.
- `tests/` runs the library on concrete values.
