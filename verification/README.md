# fs_bots

The logic of the FreeSynergy bot runtime and bot manager, verified with Verus.

- `src/` — the verified library:
  - `topic` — glob matching of dotted Bus topics (`*` one segment, trailing `**` any suffix);
  - `trigger` — Bus events, handler actions, and the engine that routes events to handlers;
  - `handlers` — what the broadcast, calendar, control, gatekeeper and room-sync handlers do with an event;
  - `commands` — the chat commands, split into the statement they run and the answer they give;
  - `db` — every database statement (SQL, parameters, error context) and how result rows decode;
  - `ui` — the bot manager: controller, CLI output, REST and gRPC operations;
  - `runtime` — the audit log and the assembly of registry and trigger engine;
  - `text`, `json`, `order` — strings, numbers, JSON text and sorted string lists.
- `tests/` — tests of the library on concrete values.
- `app/` — the `fs-bots` binary: argument parsing, the HTTP server, printing.

Database access is by statements: the library names each statement as a `DbQuery` and
turns the outcome of running it (`DbRows`, or a failure) into records and answers. No
database engine is part of this tree: a program that runs the statements supplies one and
hands each outcome back to the library.
