# notilens

Task lifecycle notifications for agents and background jobs: a verified
library (`src/`) and the SDK and command line around it (`app/`).

`src/` holds the logic, proved by Verus. Functions that read the clock
(`now_ms`, `now_secs`) promise only what holds of every reading; the
functions that make a notification (`NotiLens::prepare_payload`,
`NotiLens::track_payload`, `Run::payload`) return it and state which one it
is, for some clock reading. `app/` hands it to the delivery worker.

- `fields`: key/value records (metrics, metadata, state updates) as maps.
- `metrics`: recording a value under a key, and resets.
- `events`: the type of each event and whether it asks to act by default.
- `state`: the saved state of a run, the update each lifecycle step writes,
  the durations reported, state and pointer file names, stale-file cleanup,
  and the clock reading (`clock_millis`).
- `payload`: the notification built for an event: title, type, links, flags
  and metadata.
- `client`: credentials resolution, the agent client and its runs.
- `runid`: run identifiers.
- `cli`: command-line arguments, flags, commands and their notifications.

`app/` reads and writes the state, pointer and configuration files, reads the
environment, runs the delivery thread and hands it each notification, posts
to the webhook over HTTP, and
adds numeric metrics (a floating-point addition) before recording them.
