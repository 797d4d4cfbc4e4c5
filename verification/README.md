# radishflow_studio

The entitlement and control-plane core of the RadishFlow Studio desktop
application, written in Verus. Every function in `src/` carries a contract
that Verus proves, except two thin calls into std whose contracts are
trusted and say so in their doc comments: `text::push_char`
(`String::push`) and `headless::debug_string` (`format!("{:?}")` of a
string, its result only named).

## Layout

- `src/` — the verified library.
  - `entitlement_preflight`, `entitlement_session_*` — when the session
    syncs the entitlement or refreshes the offline lease, how failures back
    off, which timer the host arms, and the text it shows.
  - `control_plane_client`, `control_plane_protocol`, `control_plane_sync`,
    `entitlement_control` — requests to the control plane, how its answers
    and failures are checked and classified, and how snapshot and manifests
    are combined.
  - `auth_cache` — the local auth cache index: syncing it with the session,
    recording downloads, applying offline refreshes.
  - `timestamp` — UTC timestamps on the wire, with a proved round trip.
  - `modeling_actions` — the checks a modeling action passes first.
  - `headless`, `app_facade`, `document_lifecycle`, `bootstrap` — exit
    codes, step bindings, run outcomes and their log lines, save targets,
    and the seeded demonstration entitlement and control plane.
  - `text`, `text_order`, `time`, `error` — text building, string order,
    instants and spans, the domain error.
- `tests/` — tests run against the compiled library.
- `app/` — what Verus does not see: the reqwest HTTP transport and the JSON
  form of the control-plane protocol (serde).

Instants are nanoseconds since the Unix epoch (`i128`), spans are
nanoseconds (`u128`), in the ranges of `SystemTime` and `Duration`.
