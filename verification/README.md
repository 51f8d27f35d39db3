# Offroad Frontier

An off-road driving game whose discrete rules are a Verus-verified library.

* `src/` — the library, verified with Verus:
  * `game/` — settings types, surface kinds, the event bus (which handlers an
    event reaches, in which order), the game's control state (running,
    paused, camera mode), checkpoint activation and collectible totals.
  * `systems/` — mission status, the mission outcome of each frame (failure
    by time or cargo, completion by objectives or checkpoints) and reward
    accounting, gear shifting, winch
    control transitions, weather precipitation and surface conditions, sound
    categories.
  * `ui/` — main and pause menus, HUD toggles and the gear indicator, the
    minimap's rotation mode, and the notification queue (priority order,
    ids, visible slots, dismissal).
  * `utils/` — `clamp`, the per-section profiling statistics and the table
    of sections that the profiler keeps.
* `app/` — the program around the library: the floating-point simulation
  (vehicle physics, terrain, weather clock, camera, particles, audio
  mixing), file and configuration I/O, the profiler's clock, and `main`.
* `tests/` — tests of the library's public functions.

Values the library cannot hold itself (a notification's display time, a
mission's course, where a checkpoint or collectible lies) are generic
parameters that the application fills in.
