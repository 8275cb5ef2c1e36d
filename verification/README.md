# sleepmode

Sleep mode for a button deck. After a spell without key presses the deck is
dimmed and, after a further spell, switched off; at night a second set of
values is in force. A button switches the mode on and off and wakes the deck.

- `src/` is the library, verified with Verus. It decides and computes, and
  performs no input or output.
  - `clock`: the time of day, and the monotonic clock
  - `settings`: what the user sets, and what of it is in force
  - `state`: the state and the timer
  - `action`: the events of the button
  - `report`: status file, button and property inspector
  - `device`: what is sent to the deck, and how it is found
  - `startup`: command line and first brightness
  - `text`, `json`: numbers, durations and messages
  - `laws`: what holds over several events
- `tests/` runs the library.
- `app/` is the plugin around it: it tells the library what happens and carries
  out what the library answers.

What is trusted without proof: the reading of the local clock by `chrono`
(`clock::local_clock`), and the building and printing of JSON values by
`serde_json` (the items of `json`).
