# rate_limit_client

A rate-limited HTTP client. Requests are admitted according to a quota of
requests per time interval with a burst size; the *global* quota is shared by
every request made with `get`, while a host registered with `build_host` has a
quota of its own, used by `host_get`.

Layout:

- `src/` — the verified library: quotas built from configurations
  (`helpers::build_quota`), the hostname of a url (`helpers::get_host`), the
  register of hosts and the choice of the limiter a request waits for
  (`RateLimitClient`), the `governor` limiters (`types`), and the command-line
  arguments of the client program (`cli`).
- `app/` — the program and the asynchronous side: reading the arguments, the
  `reqwest` HTTP client (`HttpRateLimitClient` pairs it with a
  `RateLimitClient`), waiting for a limiter, sending requests, and the error's
  `Display`.
- `tests/` — tests of the library.
