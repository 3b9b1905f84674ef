# renodx_core

The decision logic of RenderPilot's RenoDX add-on management, written in Verus
and proved against its contracts: catalogue matching, install risk and gating,
ReShade host policy, `ReShade.ini` edits, the install record and its tracked
sources, the DLSS-Fix companion, the shared Vulkan layer report, the lowering of
file effects into an ordered endpoint program, and the planning of active and
inactive uninstalls.

Layout:

- `src/` — the verified library. Each module states its model as spec
  functions and proves its public functions and laws against them.
- `tests/` — tests of the library on concrete values.
- `app/` — the ordinary Rust around it: the catalogue's JSON form, serialized
  reports, and the file-system reads and writes whose results the library
  decides on.

The only code the library trusts without proof is the SHA-256 digest
(`sha2` with `hex`) and UTF-8 decoding (`std::str::from_utf8`).
