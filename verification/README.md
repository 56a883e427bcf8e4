# kolomoni

The request-handling logic of the Stari Kolomoni API server (a dictionary of
English and Slovene words, their meanings, translations and categories),
written in Verus and proved against its contracts.

## Layout

- `src/` — the verified library.
  - `permissions`, `roles` — permissions, roles, the permissions each role
    grants, and the permissions granted to everyone.
  - `authentication` — reading the `Authorization` header and the access
    checks endpoints start with.
  - `plan` — endpoint decision plans: a sequence of guards, each either known
    from the request or a yes/no question to the database, run one question at
    a time. The step functions (`first_step`, `step_after_answer`) are
    verified against a step-by-step model, which is proved to end where the
    plan says; the loop that asks the database and feeds the answers back
    runs in the server.
  - `endpoints::*` — the plans and replies of every endpoint (users, login,
    categories, words and meanings, translations, service endpoints).
  - `login` — which tokens a login or a refresh issues.
  - `conditional` — `If-Modified-Since` handling.
  - `search` — grouping search hits by word and ranking the words.
  - `migrations` — laying out a database reset for test deployments.
  - `builder`, `responses`, `reasons`, `payload`, `ids` — responses, errors,
    error reasons, JSON body failures and UUIDs.
  - `docs` — the shared parts of the API documentation.
  - `models`, `records` — API models and database records.
- `tests/` — tests of the library on concrete values.
- `app/` — a small HTTP server around the library (actix-web) with an
  in-memory store. It serves only ping, registration, creating, listing,
  fetching and deleting categories, and the testing check; the other
  endpoints exist as verified plans and replies in `src/` but are not wired
  into this server. Token signing lives outside this project, so the server
  refuses every presented token, and its store holds no permissions.
