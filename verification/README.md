# You Have Mail

A library that watches mail accounts and reports new mail, with its behaviour
stated in contracts and proved with Verus.

- `src/` is the verified library: accounts and their states, the backends'
  interface and a null backend for testing, the Proton backend's decisions
  (only new mail in the inbox is announced; which messages, how server errors
  read, the steps of a check), the stored state and its JSON form, the
  observer's worker, encryption, and the mobile layer (errors, Android
  notification ids, the automatic poller).
- `tests/` runs the library on concrete cases.
- `app/` holds what the library leaves to its host: JSON encoding, files,
  threads and channels, logging, and the requests to the Proton servers.
