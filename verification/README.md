# twilio_rust

A client library for the Twilio REST API, verified with Verus.

- `src/` is the library. It builds the requests of the Calls and Messages
  APIs (method, URI, form body), encodes outbound calls and messages as
  `application/x-www-form-urlencoded` bodies with the `url` crate's
  serializer, reads single response fields (RFC 2822 dates, numbers sent as
  strings, status and direction names), and decides what a response means
  (accepted status, pages of results).
- `app/` is the program around it: it sends the library's requests with
  `hyper` over TLS, reads JSON bodies with `serde`, and hands the values it
  reads to the library.
- `tests/` runs the library on concrete values.

`app/` also depends on `tokio`, whose runtime drives `hyper` 0.14, and on
`headers`, which writes the basic authorization, content type and content
length headers that older `hyper` versions wrote themselves.
