# reauth_api

The rules of an authentication and billing service for customer domains,
written in Verus and proved against their contracts.

- `src/` is the verified library: the domain entities (payment modes,
  providers, statuses, billing states, webhook event types), hostname parsing,
  domain verification records, API keys, roles, magic-link and Google sign-in
  decisions, token claims, webhook delivery planning, plan validation, plan
  changes with proration and rate limits, MRR analytics, invoice and CSV
  export records, and the e-mails the service sends. Calls into hashing,
  encoding, randomness, UUID, URL, e-mail and date crates stand behind small
  trusted wrappers in `src/outside.rs` and `src/text.rs`.
- `tests/` runs the library on concrete values.
- `app/` is the service around it: the ports to storage, mail, DNS and payment
  providers, the asynchronous use cases that drive the library's decisions,
  token signing, and the serialisable forms of the library's values.
