# ce_mcp_plugin

A Cheat Engine plugin that lets an AI assistant drive Cheat Engine through a
small text protocol (`NAME:param1,param2,...`, one command per line), sent
over TCP by a bridge process on `127.0.0.1:8888`.

The crate is written in Verus. `src/` is the verified library:

- `text` — splitting at separators (`split`/`splitn`), trimming Unicode white
  space, ASCII case-insensitive comparison, building strings.
- `number` — integer parsing with the rules of `str::parse` and
  `from_str_radix` (signs, digits, overflow, error kinds), address parsing
  (decimal or `0x` hexadecimal), decimal and hexadecimal formatting, and the
  round-trip laws between them; recognising the text of a floating-point
  number.
- `protocol` — the `Command` type and `Command::from_string`, whose contract
  says what every command line reads as.
- `memory` — value types of memory reads and writes and their little-endian
  encoding, with the write-then-read law; the type codes of address-list
  entries.
- `replies` — the reply texts of every command.
- `session` — the decisions of the bridge connection: starting and stopping
  the worker, retrying a failed connection, cutting the received byte stream
  into command lines (a line may arrive over several reads), the answers of
  the Lua function `aiSendCommand`.
- `plugin` — plain values of the plugin SDK interface and the routing of
  each command to its handler.

`app/` is the DLL around it: the SDK entry points, the calls into Cheat
Engine through its function table, the worker thread and its socket, and the
Lua bridge. `tests/` runs the library on concrete inputs.
