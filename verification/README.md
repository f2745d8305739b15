# nerd

The policy and bookkeeping logic of NERD, a personal archival Nostr relay,
written in Verus with its behaviour stated in contracts and proved.

- `src/` is the verified library:
  - `auth_policy`: the NIP-42 authentication policy (protected kinds,
    whitelist mode, read protection) and how it is built from the stored
    settings;
  - `relay_proxy`: what the WebSocket proxy does with each client message
    (forward, refuse with an `OK`/`CLOSED` frame, or record an
    authentication), and the laws that tie it to the policy;
  - `proxy_connection`: one proxied connection frame by frame in each
    direction, and what each side receives over the whole connection;
  - `json`: the JSON documents the proxy reads and the frames it writes,
    parsed and printed by `serde_json`;
  - `config`, `relay`, `db`, `routes`: configuration defaults, the export
    bridge's decisions, the backend's supervision, export rules and the
    admin checks of the HTTP routes;
  - `decimal`, `text`: integer rendering and text comparison.
- `app/` is the server around it: configuration loading, the database,
  the sockets and the HTTP routes.
- `tests/` runs the library on concrete values.
