# cte — crypto trading engine

A library that normalises public market data from Binance, OKX, Bybit, gate.io
and Bitget, ranks copy-trading leaders, keeps the bookkeeping of simulated
positions and drives the reconnection of market-data streams, verified with
Verus. The `cte` program around it fetches and streams market data, scrapes
copy-trading leaderboards and shows the configuration.

- `src/` — the verified library. Every exchange module turns decoded payloads
  into candles, trades and order books with contracts that state each field;
  the `*_rest` modules build the REST requests and read what came back;
  `ws` holds the reconnection state machine and the stream names; `storage`
  the rows and queries of the SQLite store; `view` the rolling market view;
  `config`, `cli` and `session` the rules of the configuration and of the
  subcommands. Calls into `rust_decimal`, `chrono`, `uuid` and `reqwest`
  stand behind small trusted wrappers whose contracts are documented where
  they are declared.
- `tests/` — tests of the library on concrete values.
- `app/` — the program: command-line parsing, logging, the configuration
  file, HTTP and WebSocket transport, SQLite, and the serde forms of the
  exchanges' JSON payloads.
