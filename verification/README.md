# xkey

Types on the keyboard with an Xbox 360 controller: chords of sticks,
buttons and triggers select characters and editing macros, and the keys
are typed when the controller comes back to rest.

- `src/` is the verified library (Verus): decoding of the controller's
  input reports, the chord table, the controller state machine, and the
  key actions that each state types.
- `app/` is the program around it: it opens the controller over USB,
  reads its reports, hands them to `XKey::process_report`, and performs
  the returned key actions through `enigo`.
- `tests/` runs the library on concrete reports.
