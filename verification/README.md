# rsm

A runes state machine: it decodes runestone payloads, decides which rune
contracts an etching creates, routes mint and burn operations to contracts
in order, and records events in a per-chain log.

- `src/` is the library, verified with Verus. Every public function states
  what it returns; the laws of the library (distinct contract keys, ordered
  edict ids, code round trips, balanced liquidity removal) are proof
  functions beside the definitions they speak of.
- `app/` is the runtime around it: the contracts' ledgers and pools, whose
  amounts are floating point, the registry of contracts behind locks, the
  log file, and serde forms of the library's records.
- `tests/` runs the library on concrete inputs.
