# fiducia_customer

The customer application of Fiducia: sign-in with a password or a one-time code, step-up with an
authenticator, authenticator management, the portal pages, live streams, and access to API keys.

- `src/` is the library, verified with Verus: every function against its contract, but for the
  wrappers of calls into other crates, whose contracts are believed. Each wrapper says above it
  what it claims of the call.
  - `request_security`, `origin`, `tokens`: exact-origin request checks and credential-bound CSRF
    tokens.
  - `cookies`, `request_cookies`, `headers`, `response`: the cookies that are set and those that
    are sent, request headers, and responses as plain values.
  - `login`, `login_steps`, `login_responses`, `login_laws`: the sign-in flow as a state machine,
    its responses, and what holds of every run.
  - `mfa`: authenticator management as a state machine.
  - `orgs`: the organization that a request is about.
  - `html`, `auth_pages`, `portal`, `tables`: the pages.
  - `streaming`: the frames of the live streams: refreshes and changes of rows.
  - `store`: the statements that reach the API keys.
  - `text`: character sequences.
- `tests/` runs the library on concrete values.
- `app/` is the server around the library: routes, the clients of Supabase, of the identity
  service and of Postgres, and the loops that perform the actions of the flows.
