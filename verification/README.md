# Dwarf Seeks Fortune

A 2D puzzle platformer on a grid: collect every key of a level, then reach the door.
Tools break blocks beside or below the player, time can be rewound, and levels are made
in an in-game editor.

## Layout

- `src/` is the rules of the game as a library verified with Verus:
  - `pos_map` — a map from grid positions to values that keeps insertion order;
  - `components` — positions, directions, steering state, players, keys and tools;
  - `levels` — levels, tile definitions, and what each tile spawns when a level loads;
  - `resources` — the tile map of a running level, the win condition, the player's
    history, assets and user interfaces by kind, and the editor's data and palette;
  - `systems` — steering and collision over the tile map, tools, rewinding, and the
    editor's cursor and selection;
  - `states` — painting in the editor and the decisions of the game states.
- `tests/` runs the library on concrete levels and inputs.
- `app/` is the game program around the library: the Amethyst engine, window, input,
  files, entities and the floating-point motion.
