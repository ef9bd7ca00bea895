//! Metadata for each documented byte of a PCM tone's tail page (page
//! `0x30` for tone 1, `0x31` for tone 2): offsets `0x00..=0x27`.
use vstd::prelude::*;
use crate::patch_slots::Pcm;
use crate::text::str_eq;

verus! {

/// Editor grouping of a tail-page parameter.
#[derive(Debug, Clone, Copy, PartialEq, Eq, Structural)]
pub enum PcmTailGroup {
    /// Filter type, cutoff, resonance and their sensitivities.
    Filter,
    /// Filter envelope.
    Tvf,
    /// Level velocity sensitivity and velocity curve.
    Velocity,
    /// Amplifier envelope.
    Tva,
    /// Pitch envelope.
    PitchEnv,
    /// LFO 1 and LFO 2.
    Lfo,
    /// Portamento type.
    Portamento,
    /// A byte the editor does not expose.
    Reserved,
}

impl PcmTailGroup {
    /// The group's snake_case identifier.
    pub open spec fn snake_spec(self) -> &'static str {
        match self {
            PcmTailGroup::Filter => "filter",
            PcmTailGroup::Tvf => "tvf",
            PcmTailGroup::Velocity => "velocity",
            PcmTailGroup::Tva => "tva",
            PcmTailGroup::PitchEnv => "pitch_env",
            PcmTailGroup::Lfo => "lfo",
            PcmTailGroup::Portamento => "portamento",
            PcmTailGroup::Reserved => "reserved",
        }
    }

    /// The group's snake_case identifier, as used for YAML keys.
    pub fn as_snake(&self) -> (r: &'static str)
        ensures
            r == self.snake_spec(),
    {
        match self {
            PcmTailGroup::Filter => "filter",
            PcmTailGroup::Tvf => "tvf",
            PcmTailGroup::Velocity => "velocity",
            PcmTailGroup::Tva => "tva",
            PcmTailGroup::PitchEnv => "pitch_env",
            PcmTailGroup::Lfo => "lfo",
            PcmTailGroup::Portamento => "portamento",
            PcmTailGroup::Reserved => "reserved",
        }
    }

    /// Law: different groups have different identifiers.
    pub proof fn lemma_snake_distinct()
        ensures
            forall|a: PcmTailGroup, b: PcmTailGroup| a != b ==> #[trigger] a.snake_spec()@ != #[trigger] b.snake_spec()@,
    {
        reveal_strlit("filter");
        reveal_strlit("tvf");
        reveal_strlit("velocity");
        reveal_strlit("tva");
        reveal_strlit("pitch_env");
        reveal_strlit("lfo");
        reveal_strlit("portamento");
        reveal_strlit("reserved");
        assert("filter"@.len() != "tvf"@.len());
        assert("filter"@.len() != "velocity"@.len());
        assert("filter"@.len() != "tva"@.len());
        assert("filter"@.len() != "pitch_env"@.len());
        assert("filter"@.len() != "lfo"@.len());
        assert("filter"@.len() != "portamento"@.len());
        assert("filter"@.len() != "reserved"@.len());
        assert("tvf"@.len() != "velocity"@.len());
        assert("tvf"@[2] != "tva"@[2]);
        assert("tvf"@.len() != "pitch_env"@.len());
        assert("tvf"@[0] != "lfo"@[0]);
        assert("tvf"@.len() != "portamento"@.len());
        assert("tvf"@.len() != "reserved"@.len());
        assert("velocity"@.len() != "tva"@.len());
        assert("velocity"@.len() != "pitch_env"@.len());
        assert("velocity"@.len() != "lfo"@.len());
        assert("velocity"@.len() != "portamento"@.len());
        assert("velocity"@[0] != "reserved"@[0]);
        assert("tva"@.len() != "pitch_env"@.len());
        assert("tva"@[0] != "lfo"@[0]);
        assert("tva"@.len() != "portamento"@.len());
        assert("tva"@.len() != "reserved"@.len());
        assert("pitch_env"@.len() != "lfo"@.len());
        assert("pitch_env"@.len() != "portamento"@.len());
        assert("pitch_env"@.len() != "reserved"@.len());
        assert("lfo"@.len() != "portamento"@.len());
        assert("lfo"@.len() != "reserved"@.len());
        assert("portamento"@.len() != "reserved"@.len());
    }

    /// The group whose identifier is `s`, if any.
    pub fn from_snake(s: &str) -> (r: Option<PcmTailGroup>)
        ensures
            forall|g: PcmTailGroup| (r == Some(g)) <==> g.snake_spec()@ == s@,
    {
        proof {
            PcmTailGroup::lemma_snake_distinct();
        }
        if str_eq(s, "filter") {
            assert(PcmTailGroup::Filter.snake_spec()@ == s@);
            Some(PcmTailGroup::Filter)
        } else if str_eq(s, "tvf") {
            assert(PcmTailGroup::Tvf.snake_spec()@ == s@);
            Some(PcmTailGroup::Tvf)
        } else if str_eq(s, "velocity") {
            assert(PcmTailGroup::Velocity.snake_spec()@ == s@);
            Some(PcmTailGroup::Velocity)
        } else if str_eq(s, "tva") {
            assert(PcmTailGroup::Tva.snake_spec()@ == s@);
            Some(PcmTailGroup::Tva)
        } else if str_eq(s, "pitch_env") {
            assert(PcmTailGroup::PitchEnv.snake_spec()@ == s@);
            Some(PcmTailGroup::PitchEnv)
        } else if str_eq(s, "lfo") {
            assert(PcmTailGroup::Lfo.snake_spec()@ == s@);
            Some(PcmTailGroup::Lfo)
        } else if str_eq(s, "portamento") {
            assert(PcmTailGroup::Portamento.snake_spec()@ == s@);
            Some(PcmTailGroup::Portamento)
        } else if str_eq(s, "reserved") {
            assert(PcmTailGroup::Reserved.snake_spec()@ == s@);
            Some(PcmTailGroup::Reserved)
        } else {
            None
        }
    }
}

/// Metadata of one tail-page byte.
#[derive(Debug, Clone)]
pub struct PcmTailParamEntry {
    /// Offset within the tail page.
    pub offset: u8,
    /// Editor group.
    pub group: PcmTailGroup,
    /// Parameter name; empty for reserved bytes.
    pub name: &'static str,
    /// Named byte values; empty for numeric parameters.
    pub values: Vec<(u8, &'static str)>,
    /// Wire-byte range, for numeric parameters that have one.
    pub range: Option<(u8, u8)>,
    /// Displayed range, where it differs from the wire bytes.
    pub display_range: Option<(i32, i32)>,
    /// Short description; empty for reserved bytes.
    pub help: &'static str,
}

/// Number of documented tail-page bytes.
pub const PCM_TAIL_PARAM_COUNT: usize = 0x28;

/// The documented metadata of tail offset `o` (`0x00..=0x27`):
/// (group, name, values, range, display range, help).
pub open spec fn tail_param(o: u8) -> (PcmTailGroup, &'static str, Seq<(u8, &'static str)>, Option<(u8, u8)>, Option<(i32, i32)>, &'static str) {
    if o == 0x00 {
        (PcmTailGroup::Filter, "Filter Type", seq![(0u8, "OFF"), (1u8, "LPF"), (2u8, "BPF"), (3u8, "HPF"), (4u8, "PKG"), (5u8, "LPF2"), (6u8, "LPF3"), (7u8, "TONE")], None, None, "OFF: no filter. LPF: low-pass (cuts highs). BPF: band-pass. HPF: high-pass. PKG: peaking. LPF2: half-strength LPF (acoustic piano). LPF3: cutoff-dependent LPF (acoustic). TONE: optimal for the selected tone.")
    } else if o == 0x01 {
        (PcmTailGroup::Filter, "Cutoff", Seq::empty(), Some((0x00u8, 0x64u8)), Some((-50i32, 50i32)), "Specifies the frequency at which the filter will begin to be applied.")
    } else if o == 0x02 {
        (PcmTailGroup::Filter, "Resonance", Seq::empty(), Some((0x00u8, 0x64u8)), Some((-50i32, 50i32)), "Boosts the region near the cutoff frequency, giving the sound a distinctive character. Raising this value excessively may cause oscillation and distortion.")
    } else if o == 0x03 {
        (PcmTailGroup::Filter, "Cutoff Velocity Sens", Seq::empty(), Some((0x00u8, 0x64u8)), Some((-50i32, 50i32)), "Specifies the amount by which your playing strength will vary the cutoff frequency. With positive values, stronger playing will raise the cutoff frequency.")
    } else if o == 0x04 {
        (PcmTailGroup::Filter, "Cutoff Velocity Curve", seq![(0u8, "FIX"), (1u8, "1"), (2u8, "2"), (3u8, "3"), (4u8, "4"), (5u8, "5"), (6u8, "6"), (7u8, "7"), (8u8, "TONE")], None, None, "The curve by which your playing strength will affect the cutoff frequency. Normally choose TONE (the optimal curve for the selected tone). Choose FIX if you don't want the cutoff to be affected.")
    } else if o == 0x05 {
        (PcmTailGroup::Filter, "Cutoff Keyfollow", Seq::empty(), None, Some((-200i32, 200i32)), "Specifies how the pitch of the note you play will affect the cutoff frequency. With positive values, the cutoff will rise as you play higher notes.")
    } else if o == 0x06 {
        (PcmTailGroup::Filter, "Cutoff Nuance Sens", Seq::empty(), Some((0x00u8, 0x64u8)), Some((-50i32, 50i32)), "Specifies how nuances of your performance will affect the filter cutoff frequency.")
    } else if o == 0x07 {
        (PcmTailGroup::Tvf, "TVF Env Depth", Seq::empty(), Some((0x00u8, 0x64u8)), Some((-50i32, 50i32)), "Depth of the TVF envelope. Higher values increase the change produced by the TVF envelope.")
    } else if o == 0x08 {
        (PcmTailGroup::Tvf, "TVF Attack Time", Seq::empty(), Some((0x00u8, 0x64u8)), Some((-50i32, 50i32)), "Attack time of the filter envelope.")
    } else if o == 0x09 {
        (PcmTailGroup::Tvf, "TVF Decay Time", Seq::empty(), Some((0x00u8, 0x64u8)), Some((-50i32, 50i32)), "Decay time of the filter envelope.")
    } else if o == 0x0A {
        (PcmTailGroup::Tvf, "TVF Sustain Level", Seq::empty(), Some((0x00u8, 0x64u8)), Some((-50i32, 50i32)), "Sustain level of the filter envelope.")
    } else if o == 0x0B {
        (PcmTailGroup::Tvf, "TVF Release Time", Seq::empty(), Some((0x00u8, 0x64u8)), Some((-50i32, 50i32)), "Release time of the filter envelope.")
    } else if o == 0x0C {
        (PcmTailGroup::Tvf, "TVF Attack Velocity Sens", Seq::empty(), Some((0x00u8, 0x64u8)), Some((-50i32, 50i32)), "How your playing strength affects the filter attack time. Positive values shorten the attack on stronger playing.")
    } else if o == 0x0D {
        (PcmTailGroup::Tvf, "TVF Attack Nuance Sens", Seq::empty(), Some((0x00u8, 0x64u8)), Some((-50i32, 50i32)), "How nuances of your performance will affect the filter attack time.")
    } else if o == 0x0E {
        (PcmTailGroup::Velocity, "Level Velocity Sens", Seq::empty(), Some((0x00u8, 0x64u8)), Some((-50i32, 50i32)), "Amount by which the tone's volume is affected by your playing strength. Positive values: volume increases on stronger playing.")
    } else if o == 0x0F {
        (PcmTailGroup::Velocity, "Velocity Curve Type", seq![(0u8, "FIX"), (1u8, "1"), (2u8, "2"), (3u8, "3"), (4u8, "4"), (5u8, "5"), (6u8, "6"), (7u8, "7"), (8u8, "TONE")], None, None, "Curve by which your playing strength affects the tone's volume. TONE chooses the optimal curve for the selected tone; FIX disables velocity-to-volume.")
    } else if o == 0x10 {
        (PcmTailGroup::Tva, "TVA Attack Time", Seq::empty(), Some((0x00u8, 0x64u8)), Some((-50i32, 50i32)), "Attack time of the amp envelope.")
    } else if o == 0x11 {
        (PcmTailGroup::Tva, "TVA Decay Time", Seq::empty(), Some((0x00u8, 0x64u8)), Some((-50i32, 50i32)), "Decay time of the amp envelope.")
    } else if o == 0x12 {
        (PcmTailGroup::Tva, "TVA Sustain Level", Seq::empty(), Some((0x00u8, 0x64u8)), Some((-50i32, 50i32)), "Sustain level of the amp envelope.")
    } else if o == 0x13 {
        (PcmTailGroup::Tva, "TVA Release Time", Seq::empty(), Some((0x00u8, 0x64u8)), Some((-50i32, 50i32)), "Release time of the amp envelope.")
    } else if o == 0x14 {
        (PcmTailGroup::Tva, "TVA Attack Velocity Sens", Seq::empty(), Some((0x00u8, 0x64u8)), Some((-50i32, 50i32)), "How your playing strength affects the amp attack time. Positive values shorten the attack on stronger playing.")
    } else if o == 0x15 {
        (PcmTailGroup::Tva, "TVA Attack Nuance Sens", Seq::empty(), Some((0x00u8, 0x64u8)), Some((-50i32, 50i32)), "How nuances of your performance will affect the amp attack time.")
    } else if o == 0x16 {
        (PcmTailGroup::Tva, "TVA Level Nuance Sens", Seq::empty(), Some((0x00u8, 0x64u8)), Some((-50i32, 50i32)), "How nuances of your performance will affect the volume.")
    } else if o == 0x17 {
        (PcmTailGroup::PitchEnv, "Pitch Env Velocity Sens", Seq::empty(), Some((0x00u8, 0x64u8)), Some((-50i32, 50i32)), "How your playing strength affects the depth of the pitch envelope. Positive values: stronger playing increases pitch-envelope change.")
    } else if o == 0x18 {
        (PcmTailGroup::PitchEnv, "Pitch Env Depth", Seq::empty(), Some((0x00u8, 0x18u8)), Some((-12i32, 12i32)), "Depth of the pitch envelope. Higher values increase the change produced by the pitch envelope (in semitones).")
    } else if o == 0x19 {
        (PcmTailGroup::PitchEnv, "Pitch Attack Time", Seq::empty(), Some((0x00u8, 0x64u8)), Some((-50i32, 50i32)), "Attack time of the pitch envelope.")
    } else if o == 0x1A {
        (PcmTailGroup::PitchEnv, "Pitch Decay Time", Seq::empty(), Some((0x00u8, 0x64u8)), Some((-50i32, 50i32)), "Decay time of the pitch envelope.")
    } else if o == 0x1B {
        (PcmTailGroup::Portamento, "Portamento Type", seq![(0u8, "RATE"), (1u8, "TIME")], None, None, "RATE: pitch change time is proportional to the interval. TIME: pitch change takes the same time regardless of interval.")
    } else if o == 0x1C {
        (PcmTailGroup::Lfo, "LFO1 Rate", Seq::empty(), None, None, "LFO rate. 0–100 sets a fixed speed; the manual also documents BPM note-value sentinels (whole/half/quarter/triplet) and TONE — encoding not yet captured here.")
    } else if o == 0x1D {
        (PcmTailGroup::Reserved, "", Seq::empty(), None, None, "")
    } else if o == 0x1E {
        (PcmTailGroup::Lfo, "LFO1 Pitch Depth", Seq::empty(), Some((0x00u8, 0x64u8)), Some((-50i32, 50i32)), "How the LFO affects the pitch. OFF disables LFO-to-pitch routing.")
    } else if o == 0x1F {
        (PcmTailGroup::Lfo, "LFO1 TVF Depth", Seq::empty(), Some((0x00u8, 0x64u8)), Some((-50i32, 50i32)), "How the LFO affects the filter cutoff frequency.")
    } else if o == 0x20 {
        (PcmTailGroup::Lfo, "LFO1 TVA Depth", Seq::empty(), Some((0x00u8, 0x64u8)), Some((-50i32, 50i32)), "How the LFO affects the volume.")
    } else if o == 0x21 {
        (PcmTailGroup::Lfo, "LFO1 Pan Depth", Seq::empty(), Some((0x00u8, 0x64u8)), Some((-50i32, 50i32)), "How the LFO affects pan (stereo position).")
    } else if o == 0x22 {
        (PcmTailGroup::Lfo, "LFO2 Rate", Seq::empty(), None, None, "Second LFO rate. Same value space as LFO1 Rate.")
    } else if o == 0x23 {
        (PcmTailGroup::Reserved, "", Seq::empty(), None, None, "")
    } else if o == 0x24 {
        (PcmTailGroup::Lfo, "LFO2 Pitch Depth", Seq::empty(), Some((0x00u8, 0x64u8)), Some((-50i32, 50i32)), "How LFO2 affects the pitch.")
    } else if o == 0x25 {
        (PcmTailGroup::Lfo, "LFO2 TVF Depth", Seq::empty(), Some((0x00u8, 0x64u8)), Some((-50i32, 50i32)), "How LFO2 affects the filter cutoff.")
    } else if o == 0x26 {
        (PcmTailGroup::Lfo, "LFO2 TVA Depth", Seq::empty(), Some((0x00u8, 0x64u8)), Some((-50i32, 50i32)), "How LFO2 affects the volume.")
    } else if o == 0x27 {
        (PcmTailGroup::Lfo, "LFO2 Pan Depth", Seq::empty(), Some((0x00u8, 0x64u8)), Some((-50i32, 50i32)), "How LFO2 affects pan (stereo position).")
    } else {
        (PcmTailGroup::Reserved, "", Seq::empty(), None, None, "")
    }
}

/// The entry `e` describes tail offset `o` as documented.
pub open spec fn describes(e: PcmTailParamEntry, o: u8) -> bool {
    let t = tail_param(o);
    &&& e.offset == o
    &&& e.group == t.0
    &&& e.name == t.1
    &&& e.values@ == t.2
    &&& e.range == t.3
    &&& e.display_range == t.4
    &&& e.help == t.5
}

/// The metadata of tail offset `offset`; `None` past `0x27`.
pub fn param_for(offset: u8) -> (r: Option<PcmTailParamEntry>)
    ensures
        r is Some <==> offset < 0x28,
        r matches Some(e) ==> describes(e, offset),
{
    match offset {
        0x00 => {
            let values: Vec<(u8, &'static str)> = vec![(0u8, "OFF"), (1u8, "LPF"), (2u8, "BPF"), (3u8, "HPF"), (4u8, "PKG"), (5u8, "LPF2"), (6u8, "LPF3"), (7u8, "TONE")];
            assert(values@ =~= seq![(0u8, "OFF"), (1u8, "LPF"), (2u8, "BPF"), (3u8, "HPF"), (4u8, "PKG"), (5u8, "LPF2"), (6u8, "LPF3"), (7u8, "TONE")]);
            Some(PcmTailParamEntry { offset: 0x00, group: PcmTailGroup::Filter, name: "Filter Type", values, range: None, display_range: None, help: "OFF: no filter. LPF: low-pass (cuts highs). BPF: band-pass. HPF: high-pass. PKG: peaking. LPF2: half-strength LPF (acoustic piano). LPF3: cutoff-dependent LPF (acoustic). TONE: optimal for the selected tone." })
        },
        0x01 => {
            let values: Vec<(u8, &'static str)> = Vec::new();
            assert(values@ =~= Seq::empty());
            Some(PcmTailParamEntry { offset: 0x01, group: PcmTailGroup::Filter, name: "Cutoff", values, range: Some((0x00u8, 0x64u8)), display_range: Some((-50i32, 50i32)), help: "Specifies the frequency at which the filter will begin to be applied." })
        },
        0x02 => {
            let values: Vec<(u8, &'static str)> = Vec::new();
            assert(values@ =~= Seq::empty());
            Some(PcmTailParamEntry { offset: 0x02, group: PcmTailGroup::Filter, name: "Resonance", values, range: Some((0x00u8, 0x64u8)), display_range: Some((-50i32, 50i32)), help: "Boosts the region near the cutoff frequency, giving the sound a distinctive character. Raising this value excessively may cause oscillation and distortion." })
        },
        0x03 => {
            let values: Vec<(u8, &'static str)> = Vec::new();
            assert(values@ =~= Seq::empty());
            Some(PcmTailParamEntry { offset: 0x03, group: PcmTailGroup::Filter, name: "Cutoff Velocity Sens", values, range: Some((0x00u8, 0x64u8)), display_range: Some((-50i32, 50i32)), help: "Specifies the amount by which your playing strength will vary the cutoff frequency. With positive values, stronger playing will raise the cutoff frequency." })
        },
        0x04 => {
            let values: Vec<(u8, &'static str)> = vec![(0u8, "FIX"), (1u8, "1"), (2u8, "2"), (3u8, "3"), (4u8, "4"), (5u8, "5"), (6u8, "6"), (7u8, "7"), (8u8, "TONE")];
            assert(values@ =~= seq![(0u8, "FIX"), (1u8, "1"), (2u8, "2"), (3u8, "3"), (4u8, "4"), (5u8, "5"), (6u8, "6"), (7u8, "7"), (8u8, "TONE")]);
            Some(PcmTailParamEntry { offset: 0x04, group: PcmTailGroup::Filter, name: "Cutoff Velocity Curve", values, range: None, display_range: None, help: "The curve by which your playing strength will affect the cutoff frequency. Normally choose TONE (the optimal curve for the selected tone). Choose FIX if you don't want the cutoff to be affected." })
        },
        0x05 => {
            let values: Vec<(u8, &'static str)> = Vec::new();
            assert(values@ =~= Seq::empty());
            Some(PcmTailParamEntry { offset: 0x05, group: PcmTailGroup::Filter, name: "Cutoff Keyfollow", values, range: None, display_range: Some((-200i32, 200i32)), help: "Specifies how the pitch of the note you play will affect the cutoff frequency. With positive values, the cutoff will rise as you play higher notes." })
        },
        0x06 => {
            let values: Vec<(u8, &'static str)> = Vec::new();
            assert(values@ =~= Seq::empty());
            Some(PcmTailParamEntry { offset: 0x06, group: PcmTailGroup::Filter, name: "Cutoff Nuance Sens", values, range: Some((0x00u8, 0x64u8)), display_range: Some((-50i32, 50i32)), help: "Specifies how nuances of your performance will affect the filter cutoff frequency." })
        },
        0x07 => {
            let values: Vec<(u8, &'static str)> = Vec::new();
            assert(values@ =~= Seq::empty());
            Some(PcmTailParamEntry { offset: 0x07, group: PcmTailGroup::Tvf, name: "TVF Env Depth", values, range: Some((0x00u8, 0x64u8)), display_range: Some((-50i32, 50i32)), help: "Depth of the TVF envelope. Higher values increase the change produced by the TVF envelope." })
        },
        0x08 => {
            let values: Vec<(u8, &'static str)> = Vec::new();
            assert(values@ =~= Seq::empty());
            Some(PcmTailParamEntry { offset: 0x08, group: PcmTailGroup::Tvf, name: "TVF Attack Time", values, range: Some((0x00u8, 0x64u8)), display_range: Some((-50i32, 50i32)), help: "Attack time of the filter envelope." })
        },
        0x09 => {
            let values: Vec<(u8, &'static str)> = Vec::new();
            assert(values@ =~= Seq::empty());
            Some(PcmTailParamEntry { offset: 0x09, group: PcmTailGroup::Tvf, name: "TVF Decay Time", values, range: Some((0x00u8, 0x64u8)), display_range: Some((-50i32, 50i32)), help: "Decay time of the filter envelope." })
        },
        0x0A => {
            let values: Vec<(u8, &'static str)> = Vec::new();
            assert(values@ =~= Seq::empty());
            Some(PcmTailParamEntry { offset: 0x0A, group: PcmTailGroup::Tvf, name: "TVF Sustain Level", values, range: Some((0x00u8, 0x64u8)), display_range: Some((-50i32, 50i32)), help: "Sustain level of the filter envelope." })
        },
        0x0B => {
            let values: Vec<(u8, &'static str)> = Vec::new();
            assert(values@ =~= Seq::empty());
            Some(PcmTailParamEntry { offset: 0x0B, group: PcmTailGroup::Tvf, name: "TVF Release Time", values, range: Some((0x00u8, 0x64u8)), display_range: Some((-50i32, 50i32)), help: "Release time of the filter envelope." })
        },
        0x0C => {
            let values: Vec<(u8, &'static str)> = Vec::new();
            assert(values@ =~= Seq::empty());
            Some(PcmTailParamEntry { offset: 0x0C, group: PcmTailGroup::Tvf, name: "TVF Attack Velocity Sens", values, range: Some((0x00u8, 0x64u8)), display_range: Some((-50i32, 50i32)), help: "How your playing strength affects the filter attack time. Positive values shorten the attack on stronger playing." })
        },
        0x0D => {
            let values: Vec<(u8, &'static str)> = Vec::new();
            assert(values@ =~= Seq::empty());
            Some(PcmTailParamEntry { offset: 0x0D, group: PcmTailGroup::Tvf, name: "TVF Attack Nuance Sens", values, range: Some((0x00u8, 0x64u8)), display_range: Some((-50i32, 50i32)), help: "How nuances of your performance will affect the filter attack time." })
        },
        0x0E => {
            let values: Vec<(u8, &'static str)> = Vec::new();
            assert(values@ =~= Seq::empty());
            Some(PcmTailParamEntry { offset: 0x0E, group: PcmTailGroup::Velocity, name: "Level Velocity Sens", values, range: Some((0x00u8, 0x64u8)), display_range: Some((-50i32, 50i32)), help: "Amount by which the tone's volume is affected by your playing strength. Positive values: volume increases on stronger playing." })
        },
        0x0F => {
            let values: Vec<(u8, &'static str)> = vec![(0u8, "FIX"), (1u8, "1"), (2u8, "2"), (3u8, "3"), (4u8, "4"), (5u8, "5"), (6u8, "6"), (7u8, "7"), (8u8, "TONE")];
            assert(values@ =~= seq![(0u8, "FIX"), (1u8, "1"), (2u8, "2"), (3u8, "3"), (4u8, "4"), (5u8, "5"), (6u8, "6"), (7u8, "7"), (8u8, "TONE")]);
            Some(PcmTailParamEntry { offset: 0x0F, group: PcmTailGroup::Velocity, name: "Velocity Curve Type", values, range: None, display_range: None, help: "Curve by which your playing strength affects the tone's volume. TONE chooses the optimal curve for the selected tone; FIX disables velocity-to-volume." })
        },
        0x10 => {
            let values: Vec<(u8, &'static str)> = Vec::new();
            assert(values@ =~= Seq::empty());
            Some(PcmTailParamEntry { offset: 0x10, group: PcmTailGroup::Tva, name: "TVA Attack Time", values, range: Some((0x00u8, 0x64u8)), display_range: Some((-50i32, 50i32)), help: "Attack time of the amp envelope." })
        },
        0x11 => {
            let values: Vec<(u8, &'static str)> = Vec::new();
            assert(values@ =~= Seq::empty());
            Some(PcmTailParamEntry { offset: 0x11, group: PcmTailGroup::Tva, name: "TVA Decay Time", values, range: Some((0x00u8, 0x64u8)), display_range: Some((-50i32, 50i32)), help: "Decay time of the amp envelope." })
        },
        0x12 => {
            let values: Vec<(u8, &'static str)> = Vec::new();
            assert(values@ =~= Seq::empty());
            Some(PcmTailParamEntry { offset: 0x12, group: PcmTailGroup::Tva, name: "TVA Sustain Level", values, range: Some((0x00u8, 0x64u8)), display_range: Some((-50i32, 50i32)), help: "Sustain level of the amp envelope." })
        },
        0x13 => {
            let values: Vec<(u8, &'static str)> = Vec::new();
            assert(values@ =~= Seq::empty());
            Some(PcmTailParamEntry { offset: 0x13, group: PcmTailGroup::Tva, name: "TVA Release Time", values, range: Some((0x00u8, 0x64u8)), display_range: Some((-50i32, 50i32)), help: "Release time of the amp envelope." })
        },
        0x14 => {
            let values: Vec<(u8, &'static str)> = Vec::new();
            assert(values@ =~= Seq::empty());
            Some(PcmTailParamEntry { offset: 0x14, group: PcmTailGroup::Tva, name: "TVA Attack Velocity Sens", values, range: Some((0x00u8, 0x64u8)), display_range: Some((-50i32, 50i32)), help: "How your playing strength affects the amp attack time. Positive values shorten the attack on stronger playing." })
        },
        0x15 => {
            let values: Vec<(u8, &'static str)> = Vec::new();
            assert(values@ =~= Seq::empty());
            Some(PcmTailParamEntry { offset: 0x15, group: PcmTailGroup::Tva, name: "TVA Attack Nuance Sens", values, range: Some((0x00u8, 0x64u8)), display_range: Some((-50i32, 50i32)), help: "How nuances of your performance will affect the amp attack time." })
        },
        0x16 => {
            let values: Vec<(u8, &'static str)> = Vec::new();
            assert(values@ =~= Seq::empty());
            Some(PcmTailParamEntry { offset: 0x16, group: PcmTailGroup::Tva, name: "TVA Level Nuance Sens", values, range: Some((0x00u8, 0x64u8)), display_range: Some((-50i32, 50i32)), help: "How nuances of your performance will affect the volume." })
        },
        0x17 => {
            let values: Vec<(u8, &'static str)> = Vec::new();
            assert(values@ =~= Seq::empty());
            Some(PcmTailParamEntry { offset: 0x17, group: PcmTailGroup::PitchEnv, name: "Pitch Env Velocity Sens", values, range: Some((0x00u8, 0x64u8)), display_range: Some((-50i32, 50i32)), help: "How your playing strength affects the depth of the pitch envelope. Positive values: stronger playing increases pitch-envelope change." })
        },
        0x18 => {
            let values: Vec<(u8, &'static str)> = Vec::new();
            assert(values@ =~= Seq::empty());
            Some(PcmTailParamEntry { offset: 0x18, group: PcmTailGroup::PitchEnv, name: "Pitch Env Depth", values, range: Some((0x00u8, 0x18u8)), display_range: Some((-12i32, 12i32)), help: "Depth of the pitch envelope. Higher values increase the change produced by the pitch envelope (in semitones)." })
        },
        0x19 => {
            let values: Vec<(u8, &'static str)> = Vec::new();
            assert(values@ =~= Seq::empty());
            Some(PcmTailParamEntry { offset: 0x19, group: PcmTailGroup::PitchEnv, name: "Pitch Attack Time", values, range: Some((0x00u8, 0x64u8)), display_range: Some((-50i32, 50i32)), help: "Attack time of the pitch envelope." })
        },
        0x1A => {
            let values: Vec<(u8, &'static str)> = Vec::new();
            assert(values@ =~= Seq::empty());
            Some(PcmTailParamEntry { offset: 0x1A, group: PcmTailGroup::PitchEnv, name: "Pitch Decay Time", values, range: Some((0x00u8, 0x64u8)), display_range: Some((-50i32, 50i32)), help: "Decay time of the pitch envelope." })
        },
        0x1B => {
            let values: Vec<(u8, &'static str)> = vec![(0u8, "RATE"), (1u8, "TIME")];
            assert(values@ =~= seq![(0u8, "RATE"), (1u8, "TIME")]);
            Some(PcmTailParamEntry { offset: 0x1B, group: PcmTailGroup::Portamento, name: "Portamento Type", values, range: None, display_range: None, help: "RATE: pitch change time is proportional to the interval. TIME: pitch change takes the same time regardless of interval." })
        },
        0x1C => {
            let values: Vec<(u8, &'static str)> = Vec::new();
            assert(values@ =~= Seq::empty());
            Some(PcmTailParamEntry { offset: 0x1C, group: PcmTailGroup::Lfo, name: "LFO1 Rate", values, range: None, display_range: None, help: "LFO rate. 0–100 sets a fixed speed; the manual also documents BPM note-value sentinels (whole/half/quarter/triplet) and TONE — encoding not yet captured here." })
        },
        0x1D => {
            let values: Vec<(u8, &'static str)> = Vec::new();
            assert(values@ =~= Seq::empty());
            Some(PcmTailParamEntry { offset: 0x1D, group: PcmTailGroup::Reserved, name: "", values, range: None, display_range: None, help: "" })
        },
        0x1E => {
            let values: Vec<(u8, &'static str)> = Vec::new();
            assert(values@ =~= Seq::empty());
            Some(PcmTailParamEntry { offset: 0x1E, group: PcmTailGroup::Lfo, name: "LFO1 Pitch Depth", values, range: Some((0x00u8, 0x64u8)), display_range: Some((-50i32, 50i32)), help: "How the LFO affects the pitch. OFF disables LFO-to-pitch routing." })
        },
        0x1F => {
            let values: Vec<(u8, &'static str)> = Vec::new();
            assert(values@ =~= Seq::empty());
            Some(PcmTailParamEntry { offset: 0x1F, group: PcmTailGroup::Lfo, name: "LFO1 TVF Depth", values, range: Some((0x00u8, 0x64u8)), display_range: Some((-50i32, 50i32)), help: "How the LFO affects the filter cutoff frequency." })
        },
        0x20 => {
            let values: Vec<(u8, &'static str)> = Vec::new();
            assert(values@ =~= Seq::empty());
            Some(PcmTailParamEntry { offset: 0x20, group: PcmTailGroup::Lfo, name: "LFO1 TVA Depth", values, range: Some((0x00u8, 0x64u8)), display_range: Some((-50i32, 50i32)), help: "How the LFO affects the volume." })
        },
        0x21 => {
            let values: Vec<(u8, &'static str)> = Vec::new();
            assert(values@ =~= Seq::empty());
            Some(PcmTailParamEntry { offset: 0x21, group: PcmTailGroup::Lfo, name: "LFO1 Pan Depth", values, range: Some((0x00u8, 0x64u8)), display_range: Some((-50i32, 50i32)), help: "How the LFO affects pan (stereo position)." })
        },
        0x22 => {
            let values: Vec<(u8, &'static str)> = Vec::new();
            assert(values@ =~= Seq::empty());
            Some(PcmTailParamEntry { offset: 0x22, group: PcmTailGroup::Lfo, name: "LFO2 Rate", values, range: None, display_range: None, help: "Second LFO rate. Same value space as LFO1 Rate." })
        },
        0x23 => {
            let values: Vec<(u8, &'static str)> = Vec::new();
            assert(values@ =~= Seq::empty());
            Some(PcmTailParamEntry { offset: 0x23, group: PcmTailGroup::Reserved, name: "", values, range: None, display_range: None, help: "" })
        },
        0x24 => {
            let values: Vec<(u8, &'static str)> = Vec::new();
            assert(values@ =~= Seq::empty());
            Some(PcmTailParamEntry { offset: 0x24, group: PcmTailGroup::Lfo, name: "LFO2 Pitch Depth", values, range: Some((0x00u8, 0x64u8)), display_range: Some((-50i32, 50i32)), help: "How LFO2 affects the pitch." })
        },
        0x25 => {
            let values: Vec<(u8, &'static str)> = Vec::new();
            assert(values@ =~= Seq::empty());
            Some(PcmTailParamEntry { offset: 0x25, group: PcmTailGroup::Lfo, name: "LFO2 TVF Depth", values, range: Some((0x00u8, 0x64u8)), display_range: Some((-50i32, 50i32)), help: "How LFO2 affects the filter cutoff." })
        },
        0x26 => {
            let values: Vec<(u8, &'static str)> = Vec::new();
            assert(values@ =~= Seq::empty());
            Some(PcmTailParamEntry { offset: 0x26, group: PcmTailGroup::Lfo, name: "LFO2 TVA Depth", values, range: Some((0x00u8, 0x64u8)), display_range: Some((-50i32, 50i32)), help: "How LFO2 affects the volume." })
        },
        0x27 => {
            let values: Vec<(u8, &'static str)> = Vec::new();
            assert(values@ =~= Seq::empty());
            Some(PcmTailParamEntry { offset: 0x27, group: PcmTailGroup::Lfo, name: "LFO2 Pan Depth", values, range: Some((0x00u8, 0x64u8)), display_range: Some((-50i32, 50i32)), help: "How LFO2 affects pan (stereo position)." })
        },
        _ => None,
    }
}

/// The metadata of every documented tail offset, in offset order.
pub fn pcm_tail_params() -> (r: Vec<PcmTailParamEntry>)
    ensures
        r@.len() == 0x28,
        forall|i: int| 0 <= i < 0x28 ==> describes(#[trigger] r@[i], i as u8),
{
    let mut out: Vec<PcmTailParamEntry> = Vec::new();
    let mut i: u8 = 0;
    while i < 0x28
        invariant
            i <= 0x28,
            out@.len() == i,
            forall|j: int| 0 <= j < i ==> describes(#[trigger] out@[j], j as u8),
        decreases 0x28 - i,
    {
        match param_for(i) {
            Some(e) => out.push(e),
            None => {},
        }
        i += 1;
    }
    out
}

impl Pcm {
    /// Each tail byte with its offset and documented metadata, in offset
    /// order.
    pub fn iter_tail_params(&self) -> (r: Vec<(u8, u8, Option<PcmTailParamEntry>)>)
        ensures
            r@.len() <= self.raw_tail.entries_spec().len(),
            self.raw_ok() ==> r@.len() == self.raw_tail.entries_spec().len(),
            forall|i: int|
                0 <= i < r@.len() ==> {
                    let (o, b, e) = #[trigger] r@[i];
                    &&& self.raw_tail@.contains_key(o as u32)
                    &&& self.raw_tail@[o as u32] == b
                    &&& (e is Some <==> o < 0x28)
                    &&& (e matches Some(x) ==> describes(x, o))
                },
    {
        let n = self.raw_tail.len();
        let mut out: Vec<(u8, u8, Option<PcmTailParamEntry>)> = Vec::new();
        let mut i: usize = 0;
        while i < n
            invariant
                i <= n,
                n == self.raw_tail.entries_spec().len(),
                out@.len() <= i,
                self.raw_ok() ==> out@.len() == i,
                forall|j: int|
                    0 <= j < out@.len() ==> {
                        let (o, b, e) = #[trigger] out@[j];
                        &&& self.raw_tail@.contains_key(o as u32)
                        &&& self.raw_tail@[o as u32] == b
                        &&& (e is Some <==> o < 0x28)
                        &&& (e matches Some(x) ==> describes(x, o))
                    },
            decreases n - i,
        {
            let (k, b) = self.raw_tail.entry(i);
            if k <= 0xFF {
                let o = k as u8;
                out.push((o, b, param_for(o)));
            }
            i += 1;
        }
        out
    }
}

} // verus!
