# rookrant_serv

A small web service for posting rants, with sign-in through Microsoft Entra ID.

- `src/` is the verified library (Verus): configuration retrieval and template
  resolution (`config_service`, `config_chain`, `config_file`, `template`,
  `state`), the error type and how errors are answered (`errors`), the
  authentication decision (`authentication`, `url_constants`), the computing
  parts of the sign-in flow (`ms_oauth`, `user`), query outcome rules
  (`mongo_ext`), secret and certificate generation (`utils`, `certs`) and text
  helpers (`text`).
- `app/` is the program around it: command line, HTTP routes and middleware
  (axum), HTML views (maud), signed user tokens (jsonwebtoken), the MongoDB
  repository, the OAuth client and file I/O.
- `tests/` exercises the library on concrete values.

The JSON configuration file is held as a list of its members, each with its
value where that value is a string, rather than as a `serde_json::Map`: the
lookup reads no other kind of value, and template resolution needs every
retriever to hold finitely many keys, which a list shows and an opaque map
cannot.
