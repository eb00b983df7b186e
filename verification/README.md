# niri gesture inspector

A live scope for niri's touch gesture classifier: it subscribes to niri's
IPC event stream and shows swipe / pinch / rotation / arc threshold bars,
the `is_rotate` / `is_pinch` flags and the last gesture lock and end.

- `src/` is the verified library (Verus): the subscription state machine
  (`session`), the mapping from niri events to messages (`ipc`), the state
  of a threshold bar (`bar`), and the panel model that each message updates
  (`ui`), with the texts it shows (`text` for number formatting).
- `app/` is the GTK4 program around it: the socket thread, the widgets and
  the drawing of the bars.
- `tests/` runs the library on concrete values.

The `RecognitionFrame`, `GestureBegin` and `GestureEnd` events are emitted
only by debug builds of niri.
