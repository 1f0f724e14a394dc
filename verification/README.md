# psx_tutorials

The game logic of a series of PlayStation 1 tutorial programs, written in
Verus and verified:

- `fixed` — 8.8 fixed-point numbers (integral part, fraction, wrapping sum
  and difference, product, division by an integer).
- `pad` — the controller's buttons as read in one frame.
- `ship` — the fixed-point ship: turning, thrust, drift and wrapping around
  the play field.
- `rotation` — rotating fixed-point points about the z axis, given the
  angle's sine and cosine.
- `geometry` — quad, triangle and texture corners, projection to the
  screen, the heads-up display's fraction digits, double-buffer flipping.
- `sprite` — moving a sprite with the directional buttons.
- `primdraw` — the 3D tutorial's controls (interactive and automatic modes).
- `gte` — the rotation matrix and the register words handed to the
  geometry transformation engine, and the triangles assembled from its
  output.
- `rng` — the BIOS random number generator and the random-number tutorial's
  debounce state machine.

`app/` holds the console programs: video, DMA, the controller, GTE
registers, BIOS calls and text output, through the `psx` SDK, with the
library deciding what changes each frame.
