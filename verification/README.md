# asteroids

The rules of Insiculous Asteroids (a neon Asteroids with chaos modes and
two-player co-op) as a Verus-verified library, with the engine side around
it as ordinary Rust.

- `src/` — the verified rules: achievements and their page layout
  (`achievements`), integer tunables (`constants`), rock splitting, wave
  sizing, bullet-hit resolution and wave clearing (`gameplay::rocks`),
  ship deaths and the end of a match (`gameplay::ship`), scoring, bonus
  ships and the match lifecycle (`gameplay::flow`), shared bullet
  bookkeeping (`gameplay`), the desktop and web title menus (`menu`), the
  seed stream, the seeds each new rock draws and rock registration
  (`spawning`), and the data types (`types`).
- `tests/` — scenario tests of the library.
- `app/` — the engine side: physics bodies, input, f32 geometry (flight
  model, wrapping, spawn placement, wireframes), particles and UI text. It
  builds against the game engine the game was written for.
