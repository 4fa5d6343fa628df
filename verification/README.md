# Turtle Goes to Tea

A tiny 2D game. The first screen says "Press any key to continue..."; any
key there leads to the "You win!" screen. With the mouse, "Play" starts the
game proper: tap left/right in a steady rhythm to hop a turtle along a winding
road until it reaches its cup of tea.

- `src/` is the verified library (Verus): the screens (`screen`), the menu
  layouts and keyboard/mouse navigation (`menu`), the rhythm rules that size
  each hop (`rhythm`), and the win condition, a circle-against-square contact
  test (`collision`).
- `app/` is the Bevy front end: window, drawing, input, the frame loop, and the
  floating-point motion (velocity decay, the road's curve).
- `tests/` exercises the library on concrete values.
