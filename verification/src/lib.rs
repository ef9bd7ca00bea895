//! Codec for the Roland GR-55 guitar synthesizer's SysEx protocol: frame
//! parsing and encoding, the patch-slot address space, and typed models of
//! the System and Patch areas.

pub mod address;
pub mod byte_map;
pub mod cli;
pub mod codec;
pub mod g5l;
pub mod help;
pub mod inbound;
pub mod key_text;
pub mod patch;
pub mod patch_codec;
pub mod patch_enums;
pub mod patch_values;
pub mod patch_slots;
pub mod pcm_tail_keys;
pub mod pcm_tail_params;
pub mod system_enums;
pub mod sysex;
pub mod system;
pub mod text;

pub use address::{AddressSpace, PatchSlot, PatchSlotError};
pub use patch::{PatchArea, PatchMode, PatchName};
pub use system::SystemArea;

pub use codec::CodecError;
pub use sysex::{
    decode_rq1_size, encode_rq1_size, parse_frames, parse_frames_unchecked, roland_checksum,
    ChecksumStatus, Frame, FrameIter, FrameIterUnchecked, DEVICE_ID_BROADCAST, DEVICE_ID_DEFAULT,
    EOX, MANUFACTURER_ROLAND, MODEL_ID_GR55, SOX,
};
