# scylla_items

An HTTP API over two Scylla tables, `demo.items (id uuid, name text, value
bigint)` and `demo.custom_texts (id uuid, text text)`. Start-up creates the
keyspace and `demo.items`; `demo.custom_texts` is created beforehand.

- `src/` is the verified library: routing (`routing`), the query
  pairs and `node` header (`request`), the plan of a request (`dispatch`),
  execution-profile settings (`profile`), what the `items` endpoints decide
  and answer (`handlers`), the `custom_texts` endpoints (`custom`), the
  base64 text of paging states (`paging_state`), loading the TLS root
  certificates (`tls`), the start-up sequence (`setup`), the text form of
  ids (`uuid_text`), and the data types (`models`).
- `app/` is the server around it: hyper, the Scylla session, JSON
  (de)serialisation, reading the CA file, and the driver's value traits for
  `ItemValue` and `CustomText`.
- `tests/` exercises the library.

Endpoints: `POST /insert`, `POST /insert_batch`, `POST /insert_prepared`,
`GET /query_iter`, `POST /custom_insert`, `GET /custom_query`,
`POST /custom_query_paged`, `GET /custom_query_paged_all`,
`POST /custom_query_token_range`, `GET|POST /metadata[?keyspace=K&table=T]`
(`demo.items` by default). A `node: a.b.c.d[:port]` header pins a request to
one node (port 9042 by default), except the token-range scan and the
metadata endpoint; `?debug=true` records the request history of every
statement-running endpoint and prints it on the server. Without a
`certs/ca.crt` file the session connects without TLS.
