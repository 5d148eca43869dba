# cjdnstool

A command-line client for the admin interface of a cjdns node, with its
decisions written in Verus and proved against their contracts.

- `src/` — the verified library:
  - `args.rs`: connection options (`as_anon`, `with_auth`) and the log level
    that `-v`/`-q` select, with the laws that relate them;
  - `route.rs`: route resolution as a state machine (`Resolver`) that asks the
    caller for each admin call, decodes the supernode's node record and checks
    it against the destination; laws on ordering, determinism and what a
    reported route is;
  - `log.rs`: the log subscription, the rendering of each log entry and the
    decision taken on each event of the log stream;
  - `exit.rs`: the exit status of a run;
  - `text.rs`: decimal rendering and substring search.
- `tests/` — tests of the library on concrete values.
- `app/` — the program: argument parsing, the admin connection and its calls,
  the event loops, printing and logging.
