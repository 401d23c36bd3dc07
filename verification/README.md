# ghost_amd

The decision logic of the Ghost environment, a shell that presents AMD
Radeon cards to CUDA-oriented AI software as NVIDIA GPUs (ROCm first,
ZLUDA as a fallback), verified with Verus.

- `src/` — the verified library:
  - `text` — whitespace, trimming, word splitting, line splitting, search,
    replacement, decimal numbers, padding, joining (specified over `Seq<char>`);
  - `gpu` — card families and the NVIDIA product each is presented as, the
    choice of the two cards with the most memory, the environment plan;
  - `json` — the library's JSON form (`Json`), what `serde_json` reads from a text (a named
    result), and the adapter and release listings read from it;
  - `fetch` — the dependency plan and recipes, the ZLUDA build choice, the HTTP/PowerShell
    download steps (with a fresh mode);
  - `search_path` — adding entries to `PATH`-like variables;
  - `stub` — the NVML/CUDA stand-in library source and its rebuild rule;
  - `monitor` — readiness detection, the waiting-room decisions, the dashboard, and the
    temperature, load and memory-use readings of `rocm-smi`;
  - `hipify` — CUDA-to-HIP translation preparation and report;
  - `launch` — rerunning a crashed script through ZLUDA;
  - `shell` — the shell's command language and the cleaner's menu;
  - `doctor`, `media` — diagnosis table (with the driver check) and music player state.
- `app/` — the program: terminal, processes, files, network, registry.
- `tests/` — tests of the library on concrete values.
