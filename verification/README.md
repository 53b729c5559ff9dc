# zero2prod

A newsletter service: people subscribe and confirm by e-mail, writers log in and
publish issues, and a background worker delivers each issue to every confirmed
subscriber.

## Layout

- `src/` is the verified library. Every decision of the service stands there with a
  contract: parsing subscriber names and e-mail addresses, idempotency keys, basic
  credentials and passwords, the HTML pages, and the request flows themselves. A flow
  that alternates database or network work with decisions (subscribing, confirming,
  logging in, changing a password, publishing an issue, delivering it) is a state
  machine: each state names the outside work to do next, and `step` takes what that
  work gave and decides the next state.
- `app/` is the program around the library: the HTTP server, the Postgres queries, the
  e-mail requests, the session, logging, and the loops that run the state machines.
- `tests/` exercises the library on concrete values.

Calls into outside crates (`validator`, `unicode-segmentation`, `argon2`, `base64`,
`urlencoding`, `uuid`, `reqwest`, `sqlx`, `eyre`, `lazy_errors`, `actix-web`) stand in
`src/` behind small trusted wrappers whose contracts say what those crates document.
