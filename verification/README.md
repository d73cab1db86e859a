# core_3d

The decisions of a 3D render pipeline for the Bevy renderer, verified with Verus.

- `src/` is the library. Every function states in its contract what it returns, and the public
  proof functions state what holds of the pipeline as a whole: which views have phases, who
  shares which texture, and in which order items are drawn.
- `app/` connects the library with the app, its worlds and the GPU.
- `tests/` runs the library on examples, with the crates of the renderer linked.

Single-precision distances are held as their bits, render targets and entities as numbers. What
only the renderer can do, such as creating a texture, the library describes and `app/` performs.
