# dns-01-web

A small web service that publishes DNS-01 challenge tokens: users register,
receive an API key, and push `(name, token, ttl)` records that end up in a
zone file served by the nameservers.

`src/` is the verified library (Verus):

- `models` — users and records, and how each is read from a result row;
- `secrets` — password hashing (SHA3-256 of salt and password, hex encoded)
  and random salts and API keys;
- `accounts` — registration and login;
- `records` — the checks and steps of publishing a record;
- `zone` — the zone file context built from the zone query's rows;
- `template` — the name/value contexts pages are rendered with;
- `pages` — what each page and API answer shows, and where forms redirect;
- `text` — UTF-8 lengths.

`app/` is the Rocket application around it: routes, the MySQL queries,
templates and files.
