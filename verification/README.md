# memops_bench

A micro-benchmark of hand-written x86-64 `memcpy` and `memset` routines,
split into a verified library (`src/`, checked by Verus) and a thin program
around it (`app/`).

- `src/detect.rs` — the feature table built from `cpuid` leaves and `XCR0`,
  feature names and their bits, and detection.
- `src/bench.rs` — which implementation a benchmark name selects, and the
  buffers of one measurement.
- `src/memops.rs` — portable `memcpy`, `memmove`, `memset`, `memchr`,
  `memcmp` over slices, with their laws.
- `src/supply.rs` — zeroed and random buffer suppliers (`getrandom`).
- `src/timing.rs` — time-stamp assembly and per-run statistics.
- `app/` — `cpuid`/`xgetbv`/`rdtsc`, the naked-assembly routines, the
  measurement loop and printing.
