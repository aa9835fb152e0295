# poeng_server

The server of an ecosystem simulation: creatures graze, hunt, flee, mate and
are born on a tile map; clients follow the world over websockets, and a local
window shows it.

- `src/` is the library, verified with Verus: the map and its index of what
  stands on each square, the creatures' decisions (which food, which mate,
  where to step), the reading of client messages, the raw templates and what a
  spawned entity is made of, births and the family tree, and the rules of the
  menus. Each public function states its result in its contract; the `lemma_`
  functions state properties that hold across calls.
- `app/` runs the game: the ECS world (specs), the window (rltk), the
  websocket server (ws), and what depends on floating point.
- `tests/` runs the library on concrete worlds.
