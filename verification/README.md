# imekit

An input method engine library whose decisions are verified with
[Verus](https://github.com/verus-lang/verus).

An input method engine shows composing text in the focused text field, commits
text there and deletes text around the cursor. On Linux it talks to a Wayland
compositor, an X server or the IBus service; on Windows to the Text Services
Framework; on macOS to the Input Method Kit.

## Layout

- `src/` is the library. It does no I/O: a program hands in what the window
  system said, and gets back events for itself and requests to send. Each
  function states what it returns and how the state changes; the properties that
  span functions are public proof functions next to them.
- `app/` holds the connections: sockets, D-Bus, COM and Objective-C.
- `tests/` runs the library on concrete values.

## Example

```rust
use imekit::wayland::input_method::ProtocolEvent;
use imekit::wayland::{InputMethod, InputMethodData};
use imekit::InputMethodEvent;

let mut data = InputMethodData::default();
data.registry_event(1, "zwp_input_method_manager_v2", 1);
data.registry_event(2, "wl_seat", 8);
let mut im = InputMethod::new(data)?;

im.data.event(ProtocolEvent::Activate);
im.data.event(ProtocolEvent::Done);
while let Some(event) = im.next_event() {
    if let InputMethodEvent::Activate { serial } = event {
        let text = im.commit_string("Hello!")?;
        let commit = im.commit(serial)?;
        // Send both requests to the compositor.
    }
}
```
