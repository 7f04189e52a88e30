# scrop

A precise Wayland region selector for screen recorders: it keeps the selected
rectangle open so it can be moved, resized and confirmed, then prints its
geometry as `X,Y WxH`.

- `src/` is the verified library. Coordinates are integers in units of 1/512
  logical pixel. Wayland's positions are even numbers of units, and the
  functions that halve an extent (centres, button positions) require it to be
  even, so midpoints are exact.
  - `geometry`: points, rectangles, resize handles, toolbar placement, hit
    testing and the printed geometry.
  - `app`: the interaction state; every pointer and key event is a verified
    transition that keeps the selection on one output. A render failure ends
    it with an error, distinct from a cancel.
  - `render`: the overlay of one output, laid out as rectangles.
  - `surface`: output bounds and names, surface sizes and buffer choice.
  - `style`: sizes of the controls.
- `app/` is the Wayland client and the painting with cairo and pango.
- `tests/` exercises the library on concrete values.
