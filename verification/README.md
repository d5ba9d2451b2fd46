# haunted

The rules of *Haunted*, a first-person mystery game, as a Verus-verified library, and the game
itself around it.

- `src/` is the library: the game, chapter, application and menu states; doors and what the
  interaction key does to them; the help box hints; the dialog queue; keyboard input in each game
  state; lock picking; the floor of the first chapter (its doors, lights, neighbours and what they
  say); the main menu and the settings; and the loading screen. Each public function has a
  contract, and the laws that tie the functions together (a door toggles, a paused game comes back
  to where it was, a dialog shows its lines in order, ...) are proof functions next to them.
- `app/` is the game on the Bevy engine: rendering, physics, sound, the UI and the systems that
  read the engine's state, call the library and apply what it decides. Movement, look and the
  lock's rotation are floating point and stay there.
- `tests/` runs the library on concrete values.
