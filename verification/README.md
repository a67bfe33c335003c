# creo_bench

The core of a distributed, open-loop load tester, verified with Verus.

An orchestrator splits a load profile across load generators, configures and
starts them, collects one report per generator and interval, merges the
reports of each round and writes them out (console, interval CSV,
transaction CSV). Each generator runs virtual users that execute a Lua
script's request specs over HTTP.

## Layout

- `src/` is the verified library:
  - `load`, `transaction`, `tracker`: time quantities, transactions and their
    outcomes, per-interval statistics;
  - `orchestrator`: splitting a profile across generators, the decisions of
    each phase (connect, configure, start, collect), the persisters'
    renderings, the output directory rules;
  - `script`: parsing request specs from Lua values, resolving top-level and
    dynamic calls, the script cursor, the shared store, the response view;
  - `virtual_user`: URL resolution, response judgement, cookies, the pool of
    idle users;
  - `wire`, `config`, `service_map`: the messages between orchestrator and
    generators and their configuration;
  - `test_utils`: builders for profiles, registries, warmups, scripts and
    request specs.
- `app/` is the unverified runtime around it: serde copies of the wire types,
  the Lua interpreter, HTTP execution, file output and the network loops.
- `tests/` exercises the library through its public interface.
