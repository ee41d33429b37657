# Orbital Escape

The rules, level data and pixel-art generation of Orbital Escape, a small
orbital-slingshot game, as a library verified with Verus, and the Bevy game
around it.

- `src/` – the verified library:
  - `raster` – RGBA canvases, painting pixels, and the midpoint circle
    algorithm with a closed-form statement of the pixels it draws;
  - `sprites` – the circle, goal-zone and aiming-reticle sprite data;
  - `palette` – the five-colour palette and its engine colours;
  - `cache` – the cache of generated circle sprites;
  - `game` – screens, menu input, and level progress;
  - `level` – the five level layouts and their hints;
  - `ammo` – blasts, the ammunition bar and the reticle's visibility;
  - `hud` – the countdown text and the end-of-level titles.
- `app/` – the Bevy program: plugins, systems, UI, and the `f32` physics.
- `tests/` – tests of the library.
