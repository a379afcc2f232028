# threshold_u2f

The verified core of a software U2F token whose application keys are shares
of a two-party ECDSA key, and whose key store lives in the desktop secret
service.

- `src/` — the library, verified with Verus:
  - `app_id`, `key_handle`: the identifiers of U2F, and their Base64 text.
  - `known_app_ids`: app ids of well-known sites and their reverse lookup.
  - `attributes`: the lookup attributes and labels of stored secrets, and the
    use-count bookkeeping (advance, then sort by name).
  - `secret_store`: the secret-service key store (connection, item lookup,
    registration, recording a use).
  - `application_key`: application keys and the stored secret record.
  - `gotham_crypto`: attestation signing, key handles, and the DER encoding of
    two-party signatures.
  - `digest`, `encoding`, `text`: SHA-256, Base64 and decimal text.
- `app/` — JSON encoding of the stored records and the store operations that
  read and rewrite them, returning futures.
- `tests/` — tests on concrete values.
