# cobrinha

A terminal snake game. The rules live in the verified library under `src/`:

- `position`: cells, directions, effects; drawing a random (free) cell.
- `thing`: the things drawn on the field (food, drug, rock, body pieces, border pieces).
- `field`: the field, its border, laying out a level's things, counting food.
- `cobra`: the cobra, its body markup and its move.
- `level`: level numbers and speeds.
- `keys`: the keyboard events the game reacts to.
- `game`: the game state, one tick's decisions, and the grid that is drawn.
- `laws`: properties of the game stated and proved over the specifications.
- `random`: the one call into `rand`.

`app/main.rs` reads the terminal size and the keyboard, draws, and waits
between ticks.
