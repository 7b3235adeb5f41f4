# rust_hw

A verified library (in Verus) behind a few small command-line tools, and the
tools themselves.

- `src/` — the library, verified; the calls into tokio, regex and std that it
  makes go through a few trusted wrappers whose contracts are stated, not proved:
  - `redis`, `redis_client`, `keyed`, `log`: a string key/value store with
    publish/subscribe channels, the client's command parsing and output, the
    admission rule of the logging middleware;
  - `signal`, `executor`: the decisions of a one-waiter wake-up signal, a FIFO
    task queue, and the step machine of an executor's `block_on` loop;
  - `myfind`: command-line parsing, pattern compilation and result merging of
    a file finder;
  - `intersec`, `compare`, `buffer`, `my_rc`, `hash_map`: list intersection,
    string comparison, a summing buffer, reference counts, building a hash map.
- `tests/` — tests of the library.
- `app/` — the tools: `myfind`, an executor demo, and the key/value server and
  client (these two need the `volo_gen` crate generated from the service's
  Thrift IDL).
