# platformer

The rules of a small 2D platformer with a kinematic character controller,
verified with Verus, and the Bevy/Avian program that plays them.

- `src/` — the verified library, over plain integer values:
  - `level.rs`: the level layout (platforms and ramps) and its scenery invariant.
  - `player.rs`: the player's spawn description, keyboard input to movement
    actions, and how an action changes a character's velocity.
  - `physics.rs`: body kinds, markers, and when a character is grounded.
  - `physics/handle_kinematic_collisions.rs`: which body of a contact pair is
    resolved, and which velocity correction a contact manifold gets.
- `app/` — the game: Bevy systems that read input and physics state, call the
  library for every decision, and do the floating-point vector arithmetic.
- `tests/` — tests of the library on concrete values.
