# rynth

Python bindings for VapourSynth, split in two:

- `src/` is the verified library (Verus): the decisions, plans and state
  machines behind the bindings.
  - `clip`: clip indexing and slicing (planned as `std.Trim`/`Reverse`/
    `SelectEvery`, proved to select the frames Python's slice selects),
    repetition, alpha-clip checks, the frame rate.
  - `schedule`: the window of a concurrent frame iterator (`prefetch`,
    `backlog`, in-order delivery, stopping after a failure).
  - `signature`: parsing plugin function signatures.
  - `convert`: map keys, how Python values are stored, how values come back.
  - `environment`: environments, their outputs, the policy registry, the
    standalone policy and the `use()` context manager.
  - `frame`: frame lifecycle, plane checks, buffer layouts and requests.
  - `format`: color families, sample types, presets and their ids, names.
  - `vscore`: cache sizes, thread counts, plugin lookup, the plugin iterator.
  - `std_ns`: the `std` plugin calls the clip operations make.
- `app/` is the pyo3 extension module: Python classes, the VapourSynth FFI
  calls, locking and async plumbing, driven by the library.
- `tests/` exercises the library on concrete values.
