use vstd::prelude::*;

verus! {

/// Everything that can go wrong while framing, parsing or re-encoding
/// GR-55 SysEx traffic.
#[derive(Debug, Clone, PartialEq, Eq)]
pub enum CodecError {
    /// The first byte was not the SysEx status byte `F0`.
    NotSysEx(u8),
    /// No `F7` terminator follows the fixed header.
    MissingEox,
    /// The manufacturer byte is not Roland's `41`.
    NotRoland(u8),
    /// The three model-ID bytes are not `00 00 53`.
    WrongModelId([u8; 3]),
    /// The command byte is neither DT1 (`12`) nor RQ1 (`11`).
    UnknownCommand(u8),
    /// The declared checksum differs from the one computed over address + payload.
    BadChecksum { computed: u8, declared: u8 },
    /// The frame is shorter than the smallest legal frame.
    TooShort { got: usize, min: usize },
    /// An RQ1 frame whose size field is not exactly four bytes long.
    BadRq1Size(usize),
    /// A pedal CC number outside `1..=31` and `64..=95` cannot be encoded.
    PedalCcOutOfRange(u8),
    /// A stored unknown-byte key does not describe an address inside the area.
    BadStoredAddress(u32),
}

} // verus!
