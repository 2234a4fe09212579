# aurora

A command framework for Discord applications built on twilight.

- `src/` is the library, verified with Verus:
  - `reply` builds the data of interaction responses and decides, part by
    part, what an edit of an existing response does;
  - `flags` holds message flags and the parts a reply clears;
  - `framework` looks commands up by name, formats command mentions and
    records the IDs that Discord gives registered commands;
  - `dispatch` is the protocol of handling one gateway event: command
    check, hooks, handler, error reports;
  - `response` decides whether a reply is the initial response or an edit;
  - `text` splits names into words and formats numbers.
- `app/` runs the gateway shards and the HTTP client, awaits the hooks and
  handlers, and converts between the library's values and twilight's.
- `tests/` exercises the library on concrete values.
