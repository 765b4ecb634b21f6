# The Final Landing

A colony-survival game about a crashed settlement: place buildings, set the
colony's priority, send missions, and keep a small crew alive and on speaking
terms until day 7.

## Layout

- `src/` — the rules of the game, written in Verus and proved against their
  contracts: the map and building placement with undo, colonist decisions,
  relationships and directives, supplies and colony condition, missions and
  research, the advisor, the assignment roster, the objective, and the texts
  the interface shows.
- `tests/` — ordinary Rust tests of the library.
- `app/` — the game window (macroquad): drawing, input, the frame clock,
  colonist moods (kept in fractional points), random draws, route finding,
  and writing the social archive to disk. Every rule it applies is a call
  into the library.

## Controls

- Q, W, E, R, T: select a building tool; Esc cancels; Z undoes the last
  building.
- 1-3: Recovery, Stockpile, or Survey priority.
- Space pauses or resumes; `-` and `=` change the speed.
- M launches the recommended mission.
- Tab switches between building, assignment, and log views. In the
  assignment view: click a colonist to select it, click a building to pin it,
  right-click another colonist to toggle a pair directive, H/J copy the home or
  work pin (Shift for everyone), F/O/L change the filter, order, and role.
- X exports the social archive.
