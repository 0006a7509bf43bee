# anchor

A floating Pomodoro timer. The library (`src/`) holds the timer and its
cycle, the profiles and their configuration, and the decisions the window
makes each frame, all verified with Verus:

- `timer` — phases, profiles and the countdown state machine.
- `app` — a clock tick: seconds passing, phase ends, automatic moves.
- `audio` — which sound marks the end of which phase.
- `config` — default settings, the table of named profiles, and the choice of
  the active profile.
- `ui` — the text and cycle counter of the window, and the menu actions.
- `properties` — proofs of the cycle schedule, of what every operation keeps,
  and of how the countdown and the clock add up.

`app/` is the program around it: the egui window, Win32 calls, audio output
and the TOML configuration file.
