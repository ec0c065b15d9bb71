# alphascout-agent

AlphaScout scans Dexscreener for newly created token pairs, gives each a
heuristic risk read, and serves the results as Aomi tools and as plain-text
chat replies.

- `src/` is the library, verified with Verus: the risk model (`risk`), the
  new-launch and high-conviction selections (`market`, `ranking`, `tool`),
  URL building (`urls`), chat routing and text reports (`engine`), the pitch
  checklist (`thesis`), request spacing (`gate`), and the few calls into std
  and chrono that carry trusted contracts (`text`, `clock`).
- `app/` holds what the verifier does not take: the HTTP calls, the JSON
  types with floating-point market figures, the Aomi plugin and its tools,
  and the axum backend.
- `tests/` exercise the library on concrete values.
