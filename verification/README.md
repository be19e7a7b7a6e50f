# pmix

A Rust binding to the PMIx (Process Management Interface for Exascale)
library, split in two crates:

* `src/` — the verified core, written in Verus. It holds the decisions of
  the binding: decoding of `pmix_status_t` codes and of the enumeration
  types, the IOF channel set and its display text, process identifiers and
  the text checks for C strings, the application builder for spawn
  requests, the registries that pair non-blocking requests with their
  completions (each callback runs at most once; a callback registered under
  a fresh id and then refused at submission never runs, since the registry
  keeps every pending id at or below its counter), the lifecycle of the
  server session and the reference count of the tool library, the outcome
  of each kind of PMIx answer, the classification of value types and the
  text of info values. Contracts are stated over spec models and proved by
  Verus; the laws that relate several operations are public proof
  functions.
* `app/` — the host layer around it: the C declarations of libpmix, the
  C-side arrays and handles, the process-wide registries and sessions, and
  every call into libpmix, including reading values out of C memory (and
  formatting floating-point values). It takes its decisions from the core.

`tests/` exercises the core on concrete values.
