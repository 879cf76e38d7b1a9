# idklol

The rules of a small game backend, verified with Verus: the NPC interaction
bridge (prompt store, prompt rendering, console commands, the answers it
publishes, retry policy); the prompt evaluation harness (settings, seeded test
cases, candidate selection, the sample run and its strict-serial halt, the
course after the preflight and after each cycle, the cycle report, error classification, report
parsing, tallies); token validation and its cache; the admin access check and
the course of a character creation; the character catalog and its cache
version; request routing and answers of the NATS services; chat spawn
commands; configuration and logging settings.

- `src/` is the verified library. Each module opens with a comment saying
  what it holds; `text` and `order` are the string and ordering toolkit the
  others are proved against.
- `tests/` runs the library on concrete values.
- `app/` is the bridge program around the library: NATS, HTTP, files,
  environment, logging setup and the clock.
