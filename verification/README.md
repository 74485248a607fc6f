# streamertools

A desktop tool for Twitch streamers to run channel polls and channel-point
predictions: fill in a form, start it, watch the results, lock, resolve or cancel it,
and keep forms as named configs.

## Layout

- `src/` is the library, verified with Verus. It holds the application as a state
  machine (`state.rs`): every message gives a new state and an `Effect`, the outside
  work to do next. Around it stand the results logic of polls (`poll.rs`) and
  predictions (`prediction.rs`), the Twitch request and response types
  (`twitch_types.rs`, `twitch_api.rs`), saved configs (`config.rs`), number
  formatting (`style.rs`) and the sample data shown with `--sample`.
- `app/` is the program around it: the iced window, requests to Twitch, files and the
  keyring. It performs each `Effect` and feeds the answer back as a message.
- `tests/` runs the library on concrete values.
