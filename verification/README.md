# jugar_web

The web platform layer of the Jugar game engine, with its game rules proved in Verus.

- `src/` is the verified library: input translation and the discrete input state, the
  Pong rules (keyboard shortcuts, HUD actions, the menu / playing / paused / game-over
  state machine, rallies, scores, high score), speed and game modes, compute tiers and
  shader workgroups, the AI's player metrics, decision states and random generator, the
  simulation tiers and counter invariants, the command-line parsing of the AI tool, and
  the decimal text they use. Every public function states in its `ensures` what it returns and how it changes its
  `&mut` arguments (where that depends on the clock or the machine, what holds of every
  outcome);
  the `lemma_*` proof functions and invariants such as `window_consistent` state the laws that relate them.
- `app/` is ordinary Rust around it: JSON and wasm-bindgen for the browser, and
  everything that computes with floating point (physics, rendering, audio, effects,
  timing, the AI's paddle control and difficulty adaptation, load tests).
- `tests/` runs the library on concrete values.
