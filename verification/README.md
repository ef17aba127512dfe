# langbot

A Telegram bot that sends language learners words at an interval they choose.

- `src/` is the verified library (Verus): conversation states and commands
  (`state`), dates, times of day and the reminder clock (`clock`, calling chrono),
  the user record and its changes (`user`), chat messages and keyboards
  (`telegram`), the translation and random-word services' requests and answers
  (`web`, calling serde_json), character-level text work (`text`), and the
  decisions of the main loop (`bot`).
- `app/` is the program around it: the Telegram client (frankenstein), the
  MongoDB store, HTTP requests (reqwest) and the main loop, which performs the
  actions the library decides on.
- `tests/` runs the library against the real outside crates.
