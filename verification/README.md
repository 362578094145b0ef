# dirty

A small game-engine core. The verified library (`src/`) holds the engine's
plain logic with Verus contracts:

- `conf`: window configuration (`Conf`) and the `Launcher` builder;
- `fps`: the frame-rate window (`FPSCounter`);
- `ctx`: the plain state of the application context, frame pacing and the
  window-setting bookkeeping (`CtxState`);
- `window`: pixel positions (`Pos`) and their arithmetic;
- `pipeline`: GL pipeline descriptions and the decisions taken while building
  and drawing with one;
- `draw`: the ordered GL steps of a draw call;
- `laws`: properties that relate several operations, proved over the
  contracts above.

`app/` holds what talks to the window system, the GL driver and gamepads,
and the floating-point cameras.
