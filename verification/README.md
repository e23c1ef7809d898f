# scrapy_rs

A web-crawling framework in the style of Scrapy, whose logic is written in Verus and proved
against its contracts.

## Layout

- `src/` — the verified library. Requests, responses, items and spiders; errors, their
  handling and statistics; middleware (ordering by priority, default headers, URL filters,
  retries, rate limits); per-domain download slots; signals and monitoring history; pipelines'
  JSON framing; the crawl engine's decisions (`engine_core`); and the benchmark tool's rules
  (scenarios, the mock site's pages, the Scrapy project's template edits). Calls into `url`,
  `regex`, `rand`, `serde_json` and std sit behind small trusted wrappers whose contracts are
  stated beside them.
- `app/` — the runtime around the library: the asynchronous engine loop, HTTP downloads with
  `reqwest`, files, clocks and logging, the monitoring web servers, the benchmark command line
  and runners, and the Python bindings.
- `tests/` — tests of the library on concrete values.
