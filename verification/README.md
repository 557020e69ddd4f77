# ascii_game

A small ASCII exploration game, with its game logic verified by Verus.

- `src/` is the verified library:
  - `shared`: the endless map of generated chunks that client and server
    share (seeded from the world actor), the actors and events, and how a
    key command moves a pawn;
  - `client`: the networked client's state machine: keys, connection
    events, menus, chat, and the drawing steps of each frame;
  - `game`: the stand-alone terminal game, with its own map and a
    turn-by-turn session;
  - `draw`, `text`, `integer`, `util`: drawing steps, strings, floored
    division and rectangles;
  - `laws`: properties that span several calls.
- `app/` runs the stand-alone game in a terminal with pancurses, and keeps
  the floating-point frame-time counter.
- `tests/` exercises the library on concrete values.
