# rocy

A receipt-scanning web service: users sign in with Google, upload a photo of
a receipt, and a language model reads it into structured JSON.

- `src/` is the verified library (Verus). It holds the decisions of the
  service, each with a contract: image-type sniffing by magic bytes, the
  HTTP error mapping, configuration defaults and validation, cookie
  attributes, the OAuth callback and session checks, CORS settings, upload
  size accounting, selection of the receipt text in a model response, and
  the session, user, image and receipt services over repository ports with
  in-memory implementations. Read-after-write properties of the ports are
  stated as proof functions next to the services.
- `app/` is the HTTP server around it (axum, sqlx/Postgres, oauth2,
  async-openai): it performs the I/O and hands plain values to the
  library's decision functions (error mapping, configuration, cookies,
  OAuth callback and session checks, CORS, image sniffing, session ids).
  Its Postgres stores are asynchronous and do not implement the library's
  synchronous repository ports, so the verified services run over the
  in-memory stores only.
- `tests/` runs the library on concrete values.
