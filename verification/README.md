# rand_guard

The verified core of a small eBPF host telemetry agent. The kernel-side
probes write fixed-layout records into a ring buffer; this library decodes
them, enriches them from a process table, filters and annotates them,
evaluates rules and scenarios, and decides what the agent writes.

Everything under `src/` is checked by Verus:

- `abi`: the record layout shared with the probes, with encoders, decoders
  and the proof that a decoded encoding is the record that was encoded.
- `process_table`: per-`(pid, tid)` enrichment records and pending exec
  sources.
- `normalize`: raw records to normalized events (file filter, enrichment,
  persistence and port detections, address text).
- `dispatch`: schema checks and decoding by kind.
- `rules`, `scenarios`, `detections`: rule evaluation, the reverse-shell
  scenario and the built-in detections.
- `config`: the configuration model and its validation.
- `rate_limiter`, `privilege`, `health`, `agent`: the per-second budget, the
  privilege decision, the health record and the per-record pipeline.
- `logging`: which log directives the agent uses, and whether the filter
  parser accepts them.
- `probes`: the record each kernel probe submits, as a function of what its
  helpers return (task ids, clock, tracepoint record, user memory); the
  probes themselves are built for the BPF target and are not part of this
  crate.

`app/` is the program around it: configuration file parsing, eBPF loading
and tracepoint attachment, the ring-buffer loop, privilege inspection and
JSON output.
