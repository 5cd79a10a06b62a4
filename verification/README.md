# snake_game

A snake game for the terminal. The library in `src/` holds the game's rules,
each function with a contract that Verus proves:

- `position`: coordinates, directions, and how a game cell maps to a terminal cell.
- `tick`: the delays between moves, which shrink as the snake eats.
- `random`: the random rolls, drawn from `rand`'s thread generator.
- `food`: where new food may go and how the head meets a (wide) special food.
- `snake`: the snake's moves, its wrapping at the terminal's edges, and its collisions.
- `game`: eating and scoring, and one tick of play.
- `message`: how a message is cut into lines on the playing field.
- `controls`: what each key does while playing, paused, or after the game ends.
- `screen`: the size and place of the game area and a few drawing helpers.
- `high_score`: the bytes the high score is saved in (`bincode`'s standard configuration).

`app/main.rs` is the program: it reads keys and the terminal's size with
`crossterm`, draws the board, retries food placement until a roll is accepted, and reads and writes `data.dat`.
