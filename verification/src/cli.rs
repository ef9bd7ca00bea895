//! The command line of the `gr55` tool as plain data, and the decisions
//! taken from it before any device is touched: which MIDI ports to open,
//! how a device-ID argument reads.
use vstd::prelude::*;
use vstd::string::StringSliceAdditionalSpecFns;
use crate::text::{parse_hex_spec, parse_hex_u8_bytes, RadixError};

verus! {

/// Which area a `dump` reads; exactly one is chosen.
#[derive(Debug, Clone, PartialEq, Eq)]
pub struct DumpTarget {
    /// The System area (MSB 0x01 and 0x02).
    pub system: bool,
    /// The live current patch (TEMP RAM, MSB 0x18).
    pub temp_patch: bool,
    /// USER patch slot N (0-296).
    pub user_patch: Option<u16>,
}

/// Which area a `sync` writes; exactly one is chosen.
#[derive(Debug, Clone, PartialEq, Eq)]
pub struct SyncTarget {
    /// The System area.
    pub system: bool,
    /// The live current patch (TEMP RAM).
    pub temp_patch: bool,
    /// USER patch slot N (0-296).
    pub user_patch: Option<u16>,
}

/// The tool's sub-commands. Paths are kept as the text the user gave.
#[derive(Debug, Clone, PartialEq, Eq)]
pub enum Command {
    /// List available MIDI input/output ports.
    Ports,
    /// Send a Universal Identity Request and print the device's reply.
    Identity,
    /// Read an area from the GR-55 and write it as YAML.
    Dump { target: DumpTarget, output: String },
    /// Load a YAML file and write its state back to the GR-55.
    Sync { target: SyncTarget, input: String, verify: bool },
    /// Print a YAML file in a human-readable form.
    Show { patch: bool, file: String },
    /// Validate a YAML file against the typed model.
    Lint { patch: bool, file: String },
    /// Report differences between two YAML files.
    Diff { patch: bool, a: String, b: String },
    /// Write one slot of a `.g5l` library as YAML.
    ImportG5l { input: String, slot: usize, output: String },
}

/// The whole command line.
#[derive(Debug, Clone, PartialEq, Eq)]
pub struct Cli {
    /// Port-name substring used for both directions unless overridden.
    pub port: String,
    /// Input port-name substring, overriding `port`.
    pub input_port: Option<String>,
    /// Output port-name substring, overriding `port`.
    pub output_port: Option<String>,
    /// SysEx device ID byte.
    pub device_id: u8,
    /// How long to wait for replies, in milliseconds.
    pub timeout_ms: u64,
    pub command: Command,
}

impl Cli {
    /// The substring the input port's name must contain.
    pub fn input_needle(&self) -> (r: &str)
        ensures
            r@ == match self.input_port {
                Some(p) => p@,
                None => self.port@,
            },
    {
        match &self.input_port {
            Some(p) => p.as_str(),
            None => self.port.as_str(),
        }
    }

    /// The substring the output port's name must contain.
    pub fn output_needle(&self) -> (r: &str)
        ensures
            r@ == match self.output_port {
                Some(p) => p@,
                None => self.port@,
            },
    {
        match &self.output_port {
            Some(p) => p.as_str(),
            None => self.port.as_str(),
        }
    }
}

/// `s` with one leading `0x` removed, if it has one.
pub open spec fn strip_0x(s: Seq<u8>) -> Seq<u8> {
    if s.len() >= 2 && s[0] == 0x30 && s[1] == 0x78 {
        s.skip(2)
    } else {
        s
    }
}

/// A device-ID argument: a base-16 byte, with or without a `0x` prefix.
pub fn parse_hex_u8(s: &str) -> (r: Result<u8, RadixError>)
    ensures
        r == parse_hex_spec(strip_0x(s.spec_bytes())),
{
    let b = s.as_bytes();
    if b.len() >= 2 && b[0] == 0x30 && b[1] == 0x78 {
        let rest = vstd::slice::slice_subrange(b, 2, b.len());
        assert(rest@ =~= b@.skip(2));
        parse_hex_u8_bytes(rest)
    } else {
        parse_hex_u8_bytes(b)
    }
}

/// `needle` occurs in `hay` as a contiguous run starting at `i`.
pub open spec fn occurs_at(hay: Seq<u8>, needle: Seq<u8>, i: int) -> bool {
    0 <= i && i + needle.len() <= hay.len() && hay.subrange(i, i + needle.len()) == needle
}

/// `needle` occurs somewhere in `hay`. On the bytes of two `str`s this is
/// `str::contains`: UTF-8 is self-synchronising, so a byte-level match of
/// a whole string starts and ends on character boundaries.
pub open spec fn contains_bytes(hay: Seq<u8>, needle: Seq<u8>) -> bool {
    exists|i: int| occurs_at(hay, needle, i)
}

fn occurs_at_exec(hay: &[u8], needle: &[u8], i: usize) -> (r: bool)
    requires
        i + needle@.len() <= hay@.len(),
    ensures
        r == occurs_at(hay@, needle@, i as int),
{
    let hl = hay.len();
    let mut j: usize = 0;
    while j < needle.len()
        invariant
            hl == hay@.len(),
            j <= needle@.len(),
            i + needle@.len() <= hay@.len(),
            forall|k: int| 0 <= k < j ==> hay@[i + k] == needle@[k],
        decreases needle@.len() - j,
    {
        assert(i + j < hay@.len());
        if hay[i + j] != needle[j] {
            assert(hay@.subrange(i as int, i + needle@.len())[j as int] != needle@[j as int]);
            return false;
        }
        j += 1;
    }
    assert(hay@.subrange(i as int, i + needle@.len()) =~= needle@);
    true
}

/// Whether `needle` occurs in `hay`.
pub fn contains(hay: &str, needle: &str) -> (r: bool)
    ensures
        r == contains_bytes(hay.spec_bytes(), needle.spec_bytes()),
{
    let h = hay.as_bytes();
    let n = needle.as_bytes();
    if n.len() > h.len() {
        assert forall|i: int| !occurs_at(h@, n@, i) by {}
        return false;
    }
    let last = h.len() - n.len();
    let mut i: usize = 0;
    while i < last
        invariant
            n@.len() <= h@.len(),
            last == h@.len() - n@.len(),
            i <= last,
            h@ == hay.spec_bytes(),
            n@ == needle.spec_bytes(),
            forall|k: int| 0 <= k < i ==> !occurs_at(h@, n@, k),
        decreases last - i,
    {
        if occurs_at_exec(h, n, i) {
            return true;
        }
        i += 1;
    }
    if occurs_at_exec(h, n, last) {
        return true;
    }
    assert forall|k: int| !occurs_at(h@, n@, k) by {
        if 0 <= k && k + n@.len() <= h@.len() {
            assert(k <= last);
        }
    }
    false
}

/// The port at index `i` is one to open: its name could be read and holds
/// `needle`.
pub open spec fn port_matches(names: Seq<Option<String>>, needle: Seq<u8>, i: int) -> bool {
    names[i] matches Some(n) && contains_bytes(vstd::utf8::encode_utf8(n@), needle)
}

/// The first port whose name could be read and contains `needle`, if any.
/// `names[i]` is the name of port `i`, `None` where it could not be read.
pub fn pick_port(names: &Vec<Option<String>>, needle: &str) -> (r: Option<usize>)
    ensures
        match r {
            Some(i) => i < names@.len() && port_matches(names@, needle.spec_bytes(), i as int)
                && forall|j: int| 0 <= j < i ==> !port_matches(names@, needle.spec_bytes(), j),
            None => forall|j: int|
                0 <= j < names@.len() ==> !port_matches(names@, needle.spec_bytes(), j),
        },
{
    let mut i: usize = 0;
    while i < names.len()
        invariant
            i <= names@.len(),
            forall|j: int| 0 <= j < i ==> !port_matches(names@, needle.spec_bytes(), j),
        decreases names@.len() - i,
    {
        match &names[i] {
            Some(n) => {
                if contains(n.as_str(), needle) {
                    return Some(i);
                }
            },
            None => {},
        }
        i += 1;
    }
    None
}

} // verus!
