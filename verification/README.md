# triad-runtime

Shared runtime support for schema-derived Signal/Nexus/SEMA component daemons,
written in Verus.

- `src/` is the verified library: the length-prefixed frame codec, the
  continuation budget and the runner's step decision, process-edge argument
  classification, runtime socket-path validation and selection, subscription
  tokens, registries, event epochs and sequences, trace framing, request
  admission counts, worker permit counts, and how listener daemons turn their
  serve and stop outcomes into a run result. Public functions carry contracts
  over a mathematical model of their types; a standard-library `Path`,
  `PathBuf` or `Duration` that a function hands out is described by the
  text it reads as or the milliseconds it was made from. A user's epoch
  store is described by the next epoch it holds. The laws that span several
  functions are public proof functions (`lemma_*`).
- `tests/` exercises the library from outside.
- `app/` is the process edge that Verus does not see: binding sockets,
  blocking and Tokio accept loops, the kameo request-gate actor, reading peer
  credentials with rustix, worker threads, trace sockets, the environment,
  and the rkyv and `Display` impls the core's types cannot carry.
