# martty

The client side of an agent terminal: sessions in tabs, prompts that wait in a
queue, permission requests, forms, slash commands, pickers, plugin overlays, the
mouse and the keyboard. All of it is a state, `App`, that takes events and
replies and leaves behind a list of effects.

- `src/` is the library. Every state change is a spec function on the view of
  `App` (`AppV`); the executable function of the same purpose is proved to
  compute it. `src/laws.rs` and `src/sense.rs` state what holds of the whole.
- `tests/` runs the library from outside.
- `app/` performs the effects: files, the shell, settings, the terminal, JSON.

`App::new` makes the state, `App::handle` takes an event, `App::take_effects`
hands out what is to be done, and `App::reply` takes what came of it.
