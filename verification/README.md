# trimesh_testbed

The verified core of a small Bevy test bench for triangle-mesh colliders.
A user cycles through a playlist of glTF scenes, fires projectiles at the
level geometry and rebuilds the colliders with different trimesh flags.

- `src/` is the library, verified with Verus:
  - `scene_selection`: the scene playlist (`next`, `prev`, `position`, asset
    paths, on-screen help text) and its cycle laws;
  - `program_state`: the phases of the program and their transitions;
  - `colliders`: which colliders a rebuild affects, triangle winding flips,
    the normal-drawing switches;
  - `bevy_timer`: Bevy's `Timer` together with a model of its state, behind
    trusted wrappers whose contracts follow `Timer::tick`;
  - `timing`: the setup delay and the repeating run condition, with their
    laws over many frames;
  - `keys`: what one frame of keyboard input does.
- `tests/` exercises the library with concrete values.
- `app/` is the Bevy application: rendering, physics, input and the
  floating-point work, driven by the library's decisions.
