# clipboard

A pastebin-style clipboard service. Clipboards are created with a content,
a type (plain text or Markdown), an expiry date, an optional one-time flag
and an optional password; their contents are stored encrypted with
AES-256-CBC under a key derived from the application salt, and files can be
uploaded next to them.

- `src/` is the verified library: request checks, the encrypted storage
  document and how it reads back, the serving rules for expired, locked and
  one-time clipboards, the file lists that uploads pass around, and the
  storage plans for uploaded files. Calls into `openssl`, `bcrypt`,
  `nanoid` and the clock stand behind small trusted wrappers whose
  contracts are written next to them.
- `app/` is the HTTP server (actix-web), the MongoDB access, the file
  system work and the logging; it hands plain values to the library and
  acts on what it returns.
- `tests/` exercises the library on concrete values.
