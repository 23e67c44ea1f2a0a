# pine

Pine's core: binary loading, syscall translation and the process ports of
a compatibility layer, written in Verus with its behaviour stated in
`requires` / `ensures` contracts and proved.

## Layout

- `src/` — the verified library.
  - `syscall.rs`, `syscall/linux.rs`, `syscall/windows.rs`: the x86_64 and
    Windows NT syscall tables, their translators, and proofs that each
    table pairs numbers and names one to one.
  - `syscall/plugin.rs`: the plugin registry, which routes each syscall to
    the last plugin that claimed it.
  - `loader.rs`: ELF and PE descriptions built from what `goblin` reports.
  - `ports/`: asset registry, symbol resolver, section reader and
    serialization ports with their in-memory and recording adapters.
  - `text.rs`: the characters of a string, and decimal and hexadecimal
    rendering.
- `app/` — the program's edge: tracing set-up, JSON snapshots on disk,
  plugins loaded from shared libraries, and error types that implement
  `std::error::Error`.
- `tests/` — tests of the library.
