# devbar

Storage over BAR-mapped device memory for the host tier of a KV cache, verified with Verus.

- `src/` is the verified library: how the environment selects the memory, whether a request
  fits the aperture of a device, the order of the system calls that map it, the bytes that a
  fill sets, the registrations of a storage and the descriptor that peers receive.
- `app/` performs the system calls and owns the memory. The process that embeds it brings its
  allocator of pinned host memory.
- `tests/` runs the library on concrete values.
