# gr55_core

A verified codec for the Roland GR-55 guitar synthesizer's SysEx protocol,
written in Verus, with the `gr55` command-line tool around it.

## Layout

- `src/` — the library; every function carries a `requires`/`ensures`
  contract that Verus proves.
  - `sysex`, `codec`, `inbound`: frame parsing, encoding, checksums, stream
    scanning and classification of received MIDI messages.
  - `address`: the patch-slot address space (User/Preset banks).
  - `byte_map`: a sorted byte map keyed by wire address.
  - `system`, `system_enums`: the typed System area and its round trip
    through DT1 frames.
  - `patch`, `patch_enums`, `patch_values`, `patch_slots`, `patch_codec`:
    the typed Patch area, its decoding from frames at any base MSB and its
    encoding back.
  - `g5l`: FloorBoard `.g5l` library files.
  - `pcm_tail_params`, `pcm_tail_keys`, `help`: parameter metadata and the
    keys under which PCM tail bytes are written.
  - `key_text`, `text`, `cli`: address keys as text, small text helpers, and
    the command-line decisions (port choice, device-ID argument).
- `tests/` — unit and scenario tests run against the compiled library.
- `app/` — the `gr55` tool: MIDI I/O (midir), YAML files (serde_yaml),
  argument parsing (clap) and the `wasm-bindgen` surface. It holds serde
  copies of the library's data types and converts to and from them.

Laws the library proves include: decoding what was encoded gives the
original frame; a scanner yields at most one item per `F0` byte; a System
area written to frames and read back gives the same typed values and
unknown bytes; a Patch area written to frames and read back shows the same
byte at every address, for every area the decoder produces and for any
other area whose pitch-bend depths are in range, whose raw tails stay in
their ranges and whose unknown bytes would be parked again
(`lemma_patch_round_trip`); decoding is non-lossy: frames writing distinct
addresses decode to a patch that shows and re-encodes exactly those bytes,
name pad spaces aside (`lemma_decode_non_lossy`), and decoding that encoding
again gives the same typed view and unknown bytes
(`lemma_decode_encode_decode`); every store keeps each slot's raw tail but
for the one byte it writes; slot addresses and labels
read back as the slot; Master Assign addresses and their locations are
inverse; address keys written as text read back as the key; every PCM tail
byte's key resolves to its offset, whitespace around it or not; a `.g5l`
slot decodes to its name and mode byte.
