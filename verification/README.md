# hyperx

A verified library for the HyperX Pulsefire Raid mouse: its device model,
the codecs of its HID reports, the driver transactions on its runtime
profile and the acknowledged save to its onboard profile, the foreground lighting renderer, the offline NGENUITY Legacy
preset reader, and the text of every report the command-line tool prints.
Each public function states its result in `requires`/`ensures` over spec
functions, and Verus proves the code against those contracts.

## Layout

- `src/` — the library, verified by Verus.
  - `button`, `capability`, `color`, `device`, `performance`, `profile`:
    the device-independent model (bindings, key names, DPI limits, polling
    rates, colors, USB identities, portable profiles).
  - `pulsefire_raid`: the 264-byte profile image (polling, DPI stages,
    button records), direct RGB, read requests, the confirmed macro
    reports, and the onboard-save reports and settings copy.
  - `raid_macro`, `driver`: runtime macro timelines and the driver
    transactions; the driver keeps a ghost log of the reports it sends and
    receives, and its contracts state each report exactly.
  - `hid`, `hid_descriptor`, `wire`, `capture`: the transport boundary and a
    scripted transport, report-descriptor sizes, hex text and capture diffs.
  - `lighting`, `foreground`: effect rendering and the per-frame playback
    state.
  - `ngenuity`, `ngenuity_diff`: the `.hxp` preset parser, the import to a
    portable profile, and the semantic comparison of two presets.
  - `cli`, `registry`, `discovery_report`, `profile_text`, `reports`,
    `error_text`, `text`: argument checks, the device registry, and every
    line and message the tool prints.
  - `profile_laws`, `text_laws`, `diff_laws`, `driver_laws`,
    `capture_laws`: proofs of
    round trips, preservation and safety properties across functions.
- `tests/` — tests of the library on concrete values.
- `app/` — the `hyperx-cli` program: argument parsing, files, TOML, the
  hidapi backend, waits and printing.
