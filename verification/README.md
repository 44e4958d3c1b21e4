# doc_svc

A service for scientific documents: a metadata server (accounts, session
tokens, topics, document search) and storage nodes that hold the files.

`src/` is the verified library, checked with Verus. It holds every decision
the services take, each with a contract:

- `common`: password character rules, the user-name grammar, claim types and
  their JSON text, token signing and checking (`jsonwebtoken`), password
  hashing (`argon2`), the request interceptor and the permission gate.
- `validation`: the password complexity check and the account-creation form.
- `metadata`: authentication of metadata requests, including the revocation
  of tokens issued before a user's last log-in.
- `metadata_server`: the handlers' rules: who may act on an account, a
  document or a topic, the roles granted at account creation, log-in tokens
  and their lifetime, search filters, the grouping of a deleted user's files
  by storage node. `metadata_server::handlers` writes each call as steps:
  a step holds what the call has established, names the lookup or write the
  service performs next, and takes its answer to reach the next step or the
  call's reply.
- `storage`, `storage_server`: the report of a batch file deletion, the disk
  a heartbeat reports, the storage server's interceptor and operation gate.
- `client`: client tokens, file checksums (`sha2`), password hashing.
- `ids`, `json`, `text`, `status`: UUID and endpoint texts, JSON string
  escaping, decimal texts, and the refusals the services answer with.

`app/` is the unverified shell around it: environment, database queries
(`sqlx`), `tonic`/`tower` plumbing, the file system and `sysinfo` probes.

`tests/` runs the library with the real outside crates.
