# spider_rs

A verified core for Node.js bindings of the `spider` web crawler.

- `src/` is the library, verified with Verus:
  - `conversions.rs`: how an object stored with `push_data` is written as bytes.
  - `registry.rs`: the ids of background tasks, kept in an `IndexMap`.
  - `website.rs`: the `Website` class: configuration through `spider`, stored
    data, and the plans for crawls, scrapes, subscriptions and stops.
  - `export.rs`: the directory, file name and contents of a JSONL export.
  - `npage.rs`, `page.rs`, `nwebsite.rs`: page records and single pages.
  - `spider_calls.rs`: the calls into `spider` and what is assumed of them.
  - `laws.rs`: properties that relate several operations.
- `app/` holds the N-API bindings: reading script values, spawning and awaiting
  the tasks a plan asks for, and writing files.
- `tests/` runs the library on concrete values.
