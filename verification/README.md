# flowfull

A client library for Flowfull and Flowless-compatible backends, verified
with Verus.

- `src/` is the library. It holds the decisions the client makes, each with
  a contract: the URL of a request and its query pairs, the headers and the
  session it carries, whether and when a failed attempt is repeated, how a
  response is read, the order in which a session id is looked up, the
  bracket syntax of filters, multipart uploads, Bridge validation, the
  Bridge Payments endpoints and the decisions of the Axum middleware.
- `app/` is the asynchronous client around it: reqwest transport, storage
  in memory and on disk, serde forms of the data, and Axum glue.
- `tests/` runs the library on concrete values.
