# rusty_dam

A digital asset management core, written in Verus.

`src/` is the verified library:

- `name_path` — classification name paths (`/Brands/Armani`): parsing,
  printing, parent and name, with the proof that printing then parsing
  gives a path back.
- `session` — the application context and its session; running code as an
  administrator.
- `field`, `field_group`, `classification`, `user`, `record`, `file`,
  `collections` — the entities of the data model, the decisions of saving
  and deleting them (what is written, and that nothing is written without
  a session), and the documents that the search index keeps.
- `es` — what the replies of the search index mean.
- `worker`, `sys_service`, `dispatch`, `wide` — hosting of Windows
  services: the service pool, the status reports, the control decisions,
  the event-log settings and UTF-16 strings.
- `crypto`, `ids`, `clock`, `text` — the calls into `tiny-keccak`, `uuid`,
  `chrono` and std that the library relies on.

`app/` performs the I/O: PostgreSQL through `diesel`, the search index
through `rs-es`, serialized documents through `serde`, and the Windows
service host through `winapi` and `winreg`.

`tests/` holds the tests of the library.
