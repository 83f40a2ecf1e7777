# fujin

The Actions layer of the Meisei pipeline: the maturity boundary between
deliberation and execution. A typed `ActionPacket` may cross into execution
only once it is mature; the maturity check is deterministic.

The library under `src/` is written in Verus; every function carries a
contract that Verus proves, and the library holds no trusted items
(no `external_body` function, no `assume_specification`). Minting project
ids reads the clock and a random source, so it is the host's part; the
library carries the id's value.

- `packet` — the §13 Action Packet and the handoff types.
- `maturity` — the maturity check (`assess`, `assess_with`) with its
  strictness levels, and the laws about it (determinism, exact naming of
  missing fields, the empty packet, a single cleared field, the envelope's
  irrelevance, soft versus strict).
- `minimality` — the Ponytail minimality validator (M2–M6, W1–W2) and the
  laws relating its policies.
- `handoff` — `to_handoff` (mature packets only) and `into_new_plan`.
- `brief` — the PlanBrief (§15) and its mapping onto a packet.
- `pack` — completing a model-generated packet (upstream bounds, provenance
  fallbacks, dropping incomplete provenance) and the bounded repair loop's
  decisions.
- `service` — the method table, the tool catalogue names, and the
  decisions behind the MCP surface.
- `agent`, `error`, `text` — intake types, the error type, blank-text checks.

`app/` holds the HTTP/MCP server: JSON (de)serialization, storage, the model
provider calls, and the request loop that performs the library's decisions.
