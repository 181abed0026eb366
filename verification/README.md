# opendal_mbt

Bindings that expose OpenDAL storage operators to MoonBit programs, in two
shapes: a scalar bridge for WebAssembly hosts (handles, tasks, completions and
byte snapshots) and a native C function table.

- `src/` is the verified library: the handle arena and its generations, the
  bridge state and its task/lease protocol, option and range decoding, the
  metadata, entry and error snapshot encodings, the native ABI's input
  checks, output limits, bootstrap table installation, S3 option decoding and
  the lifecycles of listers, readers, read streams and chunked writers. Every
  call into OpenDAL goes through a small trusted wrapper. Where OpenDAL's
  source shows what a call does, the wrapper's contract says it; builders,
  layers and operators carry a ghost record of what they were given or report
  (`src/configured.rs`); what depends on the service or the environment is
  left unstated.
- `app/` holds what cannot be verified: the exported `extern "C"` and
  WebAssembly entry points, raw-pointer reads and writes, the async executor
  glue and the timer used to force pending polls.
- `tests/` runs the library with the real OpenDAL crate linked.
