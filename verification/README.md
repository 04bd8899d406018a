# pybin

`pybin` packs a uv-managed Python project into one self-extracting
executable: an outer conda prefix is the relocatable host, an inner `uv-env`
holds the project, `conda-pack` freezes the prefix, and the packed executable
extracts itself into a cache on first launch and runs the chosen console
script.

## Layout

- `src/` is the library, written in Verus and verified:
  - `sfx` — the bundle format (stub, payload, metadata, footer), its reader
    and the proof that reading back a packed executable gives what was packed;
  - `packer`, `codec`, `runner` — compressing and framing the payload, taking
    it back out, and the runner's cache decisions;
  - `project`, `scripts`, `plan` — project metadata from `[project]`,
    `[tool.poetry]` or `setup.py`, the Python request and its precedence, and
    the entrypoint choice;
  - `staging`, `commands`, `logging`, `cli`, `text` — the build commands and
    launcher, report texts, flags, and the string model everything rests on.
- `app/` is the executable: argument parsing, files, processes, terminals.
- `tests/` exercises the library on concrete values.
