# fmmap

Memory-mapped file access with verified decisions.

`src/` is the library, proved with Verus:

- `access`, `codec`: bounds-checked reads and writes of bytes and of every
  integer type in both byte orders, with laws relating what a write stores
  to what a read gives back.
- `mapping`: validation of a mapping window against the length a file will
  have, the resize a constructor performs, and the bookkeeping of a
  writable mapping (copy-on-write, poisoning after a failed resize).
- `lock`: the advisory lock a mapping holds and which lock requests reach
  the operating system.
- `removal`: the path-reuse-safe, crash-durable removal of a file, as a
  state machine over filesystem steps, with its retries.
- `lifecycle`: what a writable mapping wrapper is backed by, what a failed
  removal leaves behind, and what dropping the wrapper must still do.
- `identity`, `metadata`, `error`: file identities, metadata views and errors.

`app/` performs the system calls (open, lock, map, resize, sync, probe,
unlink) that the library's decisions ask for, on POSIX systems.

`tests/` exercises the library on concrete values.
