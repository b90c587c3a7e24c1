# latentdeck

The host-side decision logic of the LatentDeck desktop application, written
in Verus and proved against its contracts.

## Layout

- `src/` is the verified library. Every executable function states what it
  returns in `requires` / `ensures`, and the laws that relate several
  operations stand as public proof functions named `law_*`.
  - `viewport`: ordering of embedded viewport placements by session and revision.
  - `d2_capture`, `d2_runtime`, `d2_host`: the LD-D2 Deck, covering capture coordination,
    receipt-to-resample planning, worker status checks, the frame clock and the
    exit gate.
  - `generic_runtime`, `generic_sessions`: generic Protocol 2 Decks, covering load and
    mutation admission, status and reset contracts, capture supervision,
    decoded batches, warm-session bookkeeping and runtime discovery.
  - `capture_finalizer`: artifact admission, capture genealogy and the plan
    of a captured cartridge's manifest.
  - `recording`: admission and finalization bookkeeping of decoded MP4 recording.
  - `deck_ui`, `deck_catalog`: validation of Deck operator and faceplate
    descriptors, and assembly of the Deck UI catalog.
  - `bundled_decks`: the provisioning state machine for bundled Decks.
  - `text`, `versions`: UUID and decimal texts, and semantic versions (the
    latter through the `semver` crate).
- `tests/` exercises the library on concrete values.
- `app/` is ordinary Rust around the library. It holds the file and path I/O,
  the serde wire types, the floating-point viewport measurement and the
  provisioning driver.
