# succession

One process per role, bound to one run of its owner - and an orderly handover
when that run ends.

An advisory lock is the usual way to keep a single helper process unique:
whoever takes it is the one. That works until the process that spawned the
helper goes away - an update, a crash, a restart. The helper keeps running and
keeps the lock, so nothing can start the helper that belongs to the *new* run.
It does not look broken; it looks exactly like a healthy tenant.

This crate is the missing half of that lock: an identity beside it, so an
onlooker can tell which run a tenant belongs to, and a helper can tell when the
run it serves is over.

## Layout

- `src/` is the library, verified with Verus. It looks at the process table and
  decides; it never spawns, signals, sleeps or exits, and opens neither lock nor
  claim file.
- `app/` carries the decisions out: lock and claim files, signals, clocks, and
  the serialized form of the identity types.
- `tests/` runs the library.

| Module | What it decides |
|---|---|
| `identity` | who an owner process is: which run, and what it can talk to |
| `record` | what a tenant says about itself, and whether a live process is that tenant |
| `format` | how a claim record is written and read back |
| `role` | what a lock attempt makes of a claim, and who holds a role |
| `standing` | whether a helper still serves the run it was started for |
| `verdict` | whether to start a helper, wait, or evict |
| `eviction` | whom to ask to leave, and how hard |
| `supervision` | when to start a helper, and how long to back off |
| `processes` | what is running |
| `text`, `time`, `paths` | what the rest reads of text, spans of time and paths |

Functions whose names begin with `law_` state what holds across the library: a
record reads back as it was written, a reader ignores what it does not know, a
helper keeps its oath, a tenant of one's own run is never evicted, an
unidentified one gets a grace period of its own, and nobody is signalled who was
neither verified nor the only choice.
