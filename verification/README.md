# web3sniper

Watches EVM chains over WebSocket for token launches and graduations, decodes
and enriches the matching logs, and publishes typed events on an internal bus
that a logger and a dry-run executor consume.

## Layout

- `src/` — the library, verified with Verus: log decoding, the token-fact
  cache, detection assembly, event routing (topics, trace and event ids),
  the executor's gate, the reconnect backoff, rendering of log lines and the
  banner. Contracts are stated over `Seq`/`nat` models; the laws that span
  calls (cache reads after writes, eviction bounds, join keys, backoff
  doubling, …) are public proof functions.
- `app/` — the binary: reading `watchlist.yaml`, RPC connections and
  subscriptions, the broadcast bus, the clock, stdout and JSON output.
- `tests/` — tests of the library on concrete values.

## Run

```sh
cargo run                   # human-readable coloured logs
DEBUG=true cargo run | jq   # one JSON envelope per line
```

`NO_COLOR=1` or a non-terminal stdout disables colour and the banner.
