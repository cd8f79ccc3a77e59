# sentinel

Packet parsing and flow aggregation for a host-level network security sensor,
written in Verus: each function states its behaviour in `requires` / `ensures`
and Verus proves it.

- `src/` — the verified library
  - `ethernet`, `ip`, `tcp`, `udp`, `packet`: header parsers and `parse_packet`
  - `text`, `bytes`: decimal / hex / address rendering and big-endian decoding
  - `key`, `entry`, `clock`, `export`, `table`: flow keys, flow entries, timestamps,
    exported records and the flow table with its timeouts
  - `enrichment`: the Kubernetes pod metadata cache
  - `detect`: detection rules and the engine that checks exported flows against them
  - `config`, `capture`: sensor settings and the bookkeeping of the capture loop
  - `error`: parser and flow errors with their messages
- `tests/` — tests run against the compiled library
- `app/` — the sensor program: configuration files, packet capture, Prometheus
  metrics, and serializable forms of the records and of rule files
