# uc8253

Driver logic for the UC8253 e-paper controller (240 x 416 pixels, one bit per pixel), verified
with Verus.

- `src/command.rs`: the controller's commands and their register codes; the actions that send a
  command, with or without data.
- `src/frame.rs`: the frame layout (row after row, eight pixels to a byte, most significant bit
  first), drawing one pixel, and the laws of drawing.
- `src/display.rs`: the driver struct with its two frames and hardware handles, the typestate
  markers, the action plan of every driver operation (set-up, frame write, refresh, turn-off,
  resets), and the runs that hand a driver over in a new state, give back the handles of a
  set-up panel after turning it off, or commit a frame write, only
  once every action has succeeded.
- `src/action.rs`: hardware actions and the sequence that hands them out one at a time and stops
  at the first failure.
- `src/error.rs`: driver and command errors.
- `app/`: the async side on embedded-hal: carrying out the actions on the bus and pins, the
  embedded-graphics draw target, and the demo refresh loop.
