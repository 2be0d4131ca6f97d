# ynab

A client library and JSON-first command line for the YNAB v1 API, with the library's
logic proved correct by Verus.

- `src/` is the verified library:
  - `money.rs`: decimals and exact milliunit amounts;
  - `ids.rs`, `dates.rs`: UUIDs, plan selectors, calendar dates and plan months;
  - `models.rs`: request and response models, open (forward-compatible) enum strings,
    and the validation of transaction writes;
  - `endpoints.rs`: the method, path, query and body of every API operation;
  - `limiter.rs`: the rolling one-hour request limiter;
  - `retry.rs`: the retry decisions, backoff and `Retry-After` reading;
  - `errors.rs`: client and command-line errors and their exit codes;
  - `reports.rs`: the message and JSON report of a failed command;
  - `reads.rs`: the request each read command sends, defaulting to the last-used plan;
  - `settings.rs`: the client's timeout, user agent, rate limit and retry policy;
  - `cli.rs`: how command-line arguments become requests, write confirmations, and
    where credentials come from;
  - `output.rs`: which rows and columns a table of a result shows.
- `app/` is the program around it: argument parsing, the HTTP client loop, the OS
  keyring, JSON encoding and decoding, and rendering.
- `tests/` exercises the library on concrete values.
