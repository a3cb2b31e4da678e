# event_daemon

A daemon that changes the audio volume on request and reports it, coloured, to a status bar.
`pactl` does the work, and `amixer` stands in when `pactl` fails.

- `src/` is the verified library (Verus): reading the output of the audio programs, the
  controllers as step functions from a finished command to the next command or the result,
  the fallback combination and its laws, the daemon state and the event handling rules.
- `app/` runs the programs, serves the HTTP endpoints, talks to the FIFOs and drives the
  library's step functions.
- `tests/` runs the library on concrete values.
