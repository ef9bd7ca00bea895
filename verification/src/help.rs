//! Short help text for GR-55 parameters, looked up by the parameter's
//! name (the names the parameter tables use). The table is kept sorted by
//! name.
use vstd::prelude::*;
use crate::text::str_eq;

verus! {

/// Number of help entries.
pub const HELP_ENTRY_COUNT: usize = 90;

/// The `i`-th (name, help) entry of the table.
pub open spec fn help_entry(i: int) -> (&'static str, &'static str) {
    if i == 0 {
        ("Chorus Send Amp/Mod", "Amount of MOD output sent to the chorus effect (0\u{2013}100).")
    } else if i == 1 {
        ("Chorus Send MFX", "Amount of MFX output sent to the chorus effect (0\u{2013}100).")
    } else if i == 2 {
        ("Chromatic", "When ON, the tone's pitch will change only in semitone steps even if you bend a string.")
    } else if i == 3 {
        ("Compressor Attack", "Compressor attack time (how quickly compression engages).")
    } else if i == 4 {
        ("Compressor Level", "Output level after compression.")
    } else if i == 5 {
        ("Compressor Sustain", "Compression amount. Higher values increase sustain.")
    } else if i == 6 {
        ("Cutoff", "Frequency at which the filter begins to act.")
    } else if i == 7 {
        ("Cutoff Keyfollow", "How the played note's pitch affects the filter cutoff. Positive values raise the cutoff for higher notes.")
    } else if i == 8 {
        ("Cutoff Nuance Sens", "How playing nuance (soft-touch detection) modulates the filter cutoff.")
    } else if i == 9 {
        ("Cutoff Velocity Curve", "Velocity-to-cutoff response curve. FIX = no velocity tracking; 1\u{2013}7 = preset curves; TONE = optimal curve for the selected tone.")
    } else if i == 10 {
        ("Cutoff Velocity Sens", "How playing strength affects the filter cutoff. Positive values raise the cutoff with stronger picking.")
    } else if i == 11 {
        ("Delay Send Amp/Mod", "Amount of MOD output sent to the delay effect (0\u{2013}100).")
    } else if i == 12 {
        ("Delay Send MFX", "Amount of MFX output sent to the delay effect (0\u{2013}100).")
    } else if i == 13 {
        ("Distortion Drive", "Amount of distortion. Higher values produce more saturation.")
    } else if i == 14 {
        ("Distortion Level", "Output level of the distortion stage.")
    } else if i == 15 {
        ("Distortion Tone", "Tone control after distortion. Negative = warmer, positive = brighter.")
    } else if i == 16 {
        ("Distortion Type", "Distortion algorithm (clean booster, classic overdrive, hi-gain, etc.).")
    } else if i == 17 {
        ("Equalizer High Freq", "Frequency at which the High band acts.")
    } else if i == 18 {
        ("Equalizer High Gain", "Boost or cut for the High band.")
    } else if i == 19 {
        ("Equalizer Level", "Output level of the EQ section.")
    } else if i == 20 {
        ("Equalizer Low Freq", "Frequency at which the Low band acts (200Hz or 400Hz).")
    } else if i == 21 {
        ("Equalizer Low Gain", "Boost or cut for the Low band (\u{2212}15 to +15 dB).")
    } else if i == 22 {
        ("Equalizer Mid 1 Freq", "Centre frequency for the Mid 1 peaking band.")
    } else if i == 23 {
        ("Equalizer Mid 1 Gain", "Boost or cut for the Mid 1 band.")
    } else if i == 24 {
        ("Equalizer Mid 1 Q", "Width of the Mid 1 peaking band. Higher Q = narrower band.")
    } else if i == 25 {
        ("Equalizer Mid 2 Freq", "Centre frequency for the Mid 2 peaking band.")
    } else if i == 26 {
        ("Equalizer Mid 2 Gain", "Boost or cut for the Mid 2 band.")
    } else if i == 27 {
        ("Equalizer Mid 2 Q", "Width of the Mid 2 peaking band. Higher Q = narrower band.")
    } else if i == 28 {
        ("Filter Type", "Filter mode: OFF, LPF (lows pass), BPF (band around cutoff), HPF (highs pass), PKG (peaking emphasises cutoff), LPF2/LPF3 (gentler-slope low-pass variants), or TONE (best curve for the selected tone).")
    } else if i == 29 {
        ("LFO1 Pan Depth", "How much LFO1 modulates the tone's stereo position.")
    } else if i == 30 {
        ("LFO1 Pitch Depth", "How much LFO1 modulates pitch (vibrato amount).")
    } else if i == 31 {
        ("LFO1 Rate", "LFO1 speed. Can be a free-run value (0\u{2013}100), a BPM-synced note value, or TONE (the rate baked into the selected tone).")
    } else if i == 32 {
        ("LFO1 TVA Depth", "How much LFO1 modulates volume (tremolo amount).")
    } else if i == 33 {
        ("LFO1 TVF Depth", "How much LFO1 modulates the filter cutoff (wah-like sweeping).")
    } else if i == 34 {
        ("LFO2 Pan Depth", "How much LFO2 modulates the tone's stereo position.")
    } else if i == 35 {
        ("LFO2 Pitch Depth", "How much LFO2 modulates pitch.")
    } else if i == 36 {
        ("LFO2 Rate", "LFO2 speed. Free-run, BPM-synced, or TONE.")
    } else if i == 37 {
        ("LFO2 TVA Depth", "How much LFO2 modulates volume.")
    } else if i == 38 {
        ("LFO2 TVF Depth", "How much LFO2 modulates the filter cutoff.")
    } else if i == 39 {
        ("Legato", "When ON, hammer-ons and pull-offs change only pitch \u{2014} the attack of the next note isn't re-triggered. Requires CHROMATIC ON.")
    } else if i == 40 {
        ("Level Velocity Sens", "How playing strength affects the tone's volume. Positive = louder with stronger picking.")
    } else if i == 41 {
        ("Limiter Level", "Output level of the limiter.")
    } else if i == 42 {
        ("Limiter Release", "How quickly the limiter releases after clamping.")
    } else if i == 43 {
        ("Limiter Threshold", "Level above which the limiter clamps the signal.")
    } else if i == 44 {
        ("MOD: Type", "Selects the MOD effect type.")
    } else if i == 45 {
        ("Modeling 12 String", "Adds a second virtual string an octave above each main string.")
    } else if i == 46 {
        ("Modeling Tone Level", "Output level of the modelling engine.")
    } else if i == 47 {
        ("Modeling Tone Sw", "Enables or bypasses the modelling engine.")
    } else if i == 48 {
        ("Nuance Sw", "Master switch for nuance detection. When OFF, the various Nuance Sens parameters have no effect.")
    } else if i == 49 {
        ("Octave", "Shifts the tone's pitch in 1-octave steps (\u{2212}3 to +3).")
    } else if i == 50 {
        ("Pan", "Stereo position. L50 = full left, center = centered, R50 = full right.")
    } else if i == 51 {
        ("Pitch Attack Time", "Attack time of the pitch envelope (how quickly the pitch reaches its target).")
    } else if i == 52 {
        ("Pitch Decay Time", "Decay time of the pitch envelope (how quickly the pitch returns to nominal).")
    } else if i == 53 {
        ("Pitch Env Depth", "Depth of the pitch envelope (\u{2212}12 to +12 semitones).")
    } else if i == 54 {
        ("Pitch Env Velocity Sens", "How playing strength affects the pitch envelope's depth. Positive values produce more pitch movement with stronger picking.")
    } else if i == 55 {
        ("Pitch Fine", "Fine pitch adjustment in 1-cent steps (\u{2212}50 to +50, i.e. up to half a semitone).")
    } else if i == 56 {
        ("Pitch Shift", "Tone pitch in semitones (\u{2212}24 to +24, up to two octaves).")
    } else if i == 57 {
        ("Portamento Type", "RATE = pitch-change duration is proportional to interval. TIME = each pitch change takes the same wall-clock time regardless of interval size.")
    } else if i == 58 {
        ("Release Mode", "1: the next note's release continues a previously-played note on the same string. 2: any previously-played note on the same string is forcibly decayed before the next note sounds.")
    } else if i == 59 {
        ("Resonance", "Cutoff-frequency emphasis. Higher values may produce self-oscillation.")
    } else if i == 60 {
        ("Reverb Send Amp/Mod", "Amount of MOD output sent to the reverb effect (0\u{2013}100).")
    } else if i == 61 {
        ("Reverb Send MFX", "Amount of MFX output sent to the reverb effect (0\u{2013}100).")
    } else if i == 62 {
        ("Super Filter Cutoff", "Frequency at which the filter takes effect.")
    } else if i == 63 {
        ("Super Filter Resonance", "Emphasises the cutoff frequency. Raising too high may cause oscillation.")
    } else if i == 64 {
        ("Super Filter Slope", "Filter steepness. Higher slope = sharper cutoff.")
    } else if i == 65 {
        ("Super Filter Type", "Filter mode: LPF (lows pass), BPF (band pass), HPF (highs pass), or Notch.")
    } else if i == 66 {
        ("Switch Effect", "Enables or bypasses the MFX effect.")
    } else if i == 67 {
        ("TVA Attack Nuance Sens", "How playing nuance affects the amp envelope's attack time.")
    } else if i == 68 {
        ("TVA Attack Time", "Attack time of the amp envelope (\u{2212}50 to +50 relative to the tone's default).")
    } else if i == 69 {
        ("TVA Attack Velocity Sens", "How playing strength affects attack time. Positive values shorten the attack with stronger picking.")
    } else if i == 70 {
        ("TVA Decay Time", "Decay time of the amp envelope.")
    } else if i == 71 {
        ("TVA Level Nuance Sens", "How playing nuance affects the tone's overall volume.")
    } else if i == 72 {
        ("TVA Release Time", "Release time of the amp envelope.")
    } else if i == 73 {
        ("TVA Sustain Level", "Sustain level of the amp envelope.")
    } else if i == 74 {
        ("TVF Attack Nuance Sens", "How playing nuance affects the filter envelope's attack time.")
    } else if i == 75 {
        ("TVF Attack Time", "Attack time of the filter envelope.")
    } else if i == 76 {
        ("TVF Attack Velocity Sens", "How playing strength affects the filter envelope's attack time.")
    } else if i == 77 {
        ("TVF Decay Time", "Decay time of the filter envelope.")
    } else if i == 78 {
        ("TVF Env Depth", "Depth of the filter envelope. Higher values produce a more pronounced envelope-driven sweep.")
    } else if i == 79 {
        ("TVF Release Time", "Release time of the filter envelope.")
    } else if i == 80 {
        ("TVF Sustain Level", "Sustain level of the filter envelope.")
    } else if i == 81 {
        ("Type", "Selects the MFX effect type. Each type produces a different effect; switching types preserves the other types' parameters.")
    } else if i == 82 {
        ("Velocity Curve Type", "Velocity-to-volume response curve. FIX = no velocity tracking; 1\u{2013}7 = preset curves; TONE = optimal curve for the selected tone.")
    } else if i == 83 {
        ("Wah Frequency", "Centre frequency of the wah filter.")
    } else if i == 84 {
        ("Wah Level", "Output level of the wah.")
    } else if i == 85 {
        ("Wah Mode", "How the wah is controlled (manual position, auto, or pedal-controlled).")
    } else if i == 86 {
        ("Wah Peak", "Resonance / Q of the wah filter.")
    } else if i == 87 {
        ("Wah Pedal Position", "Manual wah filter position when not pedal-controlled.")
    } else if i == 88 {
        ("Wah Sens", "Sensitivity to input level for auto-wah modes.")
    } else {
        ("Wah Type", "Wah voicing \u{2014} different filter responses simulating classic wah pedals.")
    }
}

/// The `i`-th (name, help) entry of the table.
pub fn entry_at(i: usize) -> (r: (&'static str, &'static str))
    requires
        i < HELP_ENTRY_COUNT,
    ensures
        r == help_entry(i as int),
{
    match i {
        0 => ("Chorus Send Amp/Mod", "Amount of MOD output sent to the chorus effect (0\u{2013}100)."),
        1 => ("Chorus Send MFX", "Amount of MFX output sent to the chorus effect (0\u{2013}100)."),
        2 => ("Chromatic", "When ON, the tone's pitch will change only in semitone steps even if you bend a string."),
        3 => ("Compressor Attack", "Compressor attack time (how quickly compression engages)."),
        4 => ("Compressor Level", "Output level after compression."),
        5 => ("Compressor Sustain", "Compression amount. Higher values increase sustain."),
        6 => ("Cutoff", "Frequency at which the filter begins to act."),
        7 => ("Cutoff Keyfollow", "How the played note's pitch affects the filter cutoff. Positive values raise the cutoff for higher notes."),
        8 => ("Cutoff Nuance Sens", "How playing nuance (soft-touch detection) modulates the filter cutoff."),
        9 => ("Cutoff Velocity Curve", "Velocity-to-cutoff response curve. FIX = no velocity tracking; 1\u{2013}7 = preset curves; TONE = optimal curve for the selected tone."),
        10 => ("Cutoff Velocity Sens", "How playing strength affects the filter cutoff. Positive values raise the cutoff with stronger picking."),
        11 => ("Delay Send Amp/Mod", "Amount of MOD output sent to the delay effect (0\u{2013}100)."),
        12 => ("Delay Send MFX", "Amount of MFX output sent to the delay effect (0\u{2013}100)."),
        13 => ("Distortion Drive", "Amount of distortion. Higher values produce more saturation."),
        14 => ("Distortion Level", "Output level of the distortion stage."),
        15 => ("Distortion Tone", "Tone control after distortion. Negative = warmer, positive = brighter."),
        16 => ("Distortion Type", "Distortion algorithm (clean booster, classic overdrive, hi-gain, etc.)."),
        17 => ("Equalizer High Freq", "Frequency at which the High band acts."),
        18 => ("Equalizer High Gain", "Boost or cut for the High band."),
        19 => ("Equalizer Level", "Output level of the EQ section."),
        20 => ("Equalizer Low Freq", "Frequency at which the Low band acts (200Hz or 400Hz)."),
        21 => ("Equalizer Low Gain", "Boost or cut for the Low band (\u{2212}15 to +15 dB)."),
        22 => ("Equalizer Mid 1 Freq", "Centre frequency for the Mid 1 peaking band."),
        23 => ("Equalizer Mid 1 Gain", "Boost or cut for the Mid 1 band."),
        24 => ("Equalizer Mid 1 Q", "Width of the Mid 1 peaking band. Higher Q = narrower band."),
        25 => ("Equalizer Mid 2 Freq", "Centre frequency for the Mid 2 peaking band."),
        26 => ("Equalizer Mid 2 Gain", "Boost or cut for the Mid 2 band."),
        27 => ("Equalizer Mid 2 Q", "Width of the Mid 2 peaking band. Higher Q = narrower band."),
        28 => ("Filter Type", "Filter mode: OFF, LPF (lows pass), BPF (band around cutoff), HPF (highs pass), PKG (peaking emphasises cutoff), LPF2/LPF3 (gentler-slope low-pass variants), or TONE (best curve for the selected tone)."),
        29 => ("LFO1 Pan Depth", "How much LFO1 modulates the tone's stereo position."),
        30 => ("LFO1 Pitch Depth", "How much LFO1 modulates pitch (vibrato amount)."),
        31 => ("LFO1 Rate", "LFO1 speed. Can be a free-run value (0\u{2013}100), a BPM-synced note value, or TONE (the rate baked into the selected tone)."),
        32 => ("LFO1 TVA Depth", "How much LFO1 modulates volume (tremolo amount)."),
        33 => ("LFO1 TVF Depth", "How much LFO1 modulates the filter cutoff (wah-like sweeping)."),
        34 => ("LFO2 Pan Depth", "How much LFO2 modulates the tone's stereo position."),
        35 => ("LFO2 Pitch Depth", "How much LFO2 modulates pitch."),
        36 => ("LFO2 Rate", "LFO2 speed. Free-run, BPM-synced, or TONE."),
        37 => ("LFO2 TVA Depth", "How much LFO2 modulates volume."),
        38 => ("LFO2 TVF Depth", "How much LFO2 modulates the filter cutoff."),
        39 => ("Legato", "When ON, hammer-ons and pull-offs change only pitch \u{2014} the attack of the next note isn't re-triggered. Requires CHROMATIC ON."),
        40 => ("Level Velocity Sens", "How playing strength affects the tone's volume. Positive = louder with stronger picking."),
        41 => ("Limiter Level", "Output level of the limiter."),
        42 => ("Limiter Release", "How quickly the limiter releases after clamping."),
        43 => ("Limiter Threshold", "Level above which the limiter clamps the signal."),
        44 => ("MOD: Type", "Selects the MOD effect type."),
        45 => ("Modeling 12 String", "Adds a second virtual string an octave above each main string."),
        46 => ("Modeling Tone Level", "Output level of the modelling engine."),
        47 => ("Modeling Tone Sw", "Enables or bypasses the modelling engine."),
        48 => ("Nuance Sw", "Master switch for nuance detection. When OFF, the various Nuance Sens parameters have no effect."),
        49 => ("Octave", "Shifts the tone's pitch in 1-octave steps (\u{2212}3 to +3)."),
        50 => ("Pan", "Stereo position. L50 = full left, center = centered, R50 = full right."),
        51 => ("Pitch Attack Time", "Attack time of the pitch envelope (how quickly the pitch reaches its target)."),
        52 => ("Pitch Decay Time", "Decay time of the pitch envelope (how quickly the pitch returns to nominal)."),
        53 => ("Pitch Env Depth", "Depth of the pitch envelope (\u{2212}12 to +12 semitones)."),
        54 => ("Pitch Env Velocity Sens", "How playing strength affects the pitch envelope's depth. Positive values produce more pitch movement with stronger picking."),
        55 => ("Pitch Fine", "Fine pitch adjustment in 1-cent steps (\u{2212}50 to +50, i.e. up to half a semitone)."),
        56 => ("Pitch Shift", "Tone pitch in semitones (\u{2212}24 to +24, up to two octaves)."),
        57 => ("Portamento Type", "RATE = pitch-change duration is proportional to interval. TIME = each pitch change takes the same wall-clock time regardless of interval size."),
        58 => ("Release Mode", "1: the next note's release continues a previously-played note on the same string. 2: any previously-played note on the same string is forcibly decayed before the next note sounds."),
        59 => ("Resonance", "Cutoff-frequency emphasis. Higher values may produce self-oscillation."),
        60 => ("Reverb Send Amp/Mod", "Amount of MOD output sent to the reverb effect (0\u{2013}100)."),
        61 => ("Reverb Send MFX", "Amount of MFX output sent to the reverb effect (0\u{2013}100)."),
        62 => ("Super Filter Cutoff", "Frequency at which the filter takes effect."),
        63 => ("Super Filter Resonance", "Emphasises the cutoff frequency. Raising too high may cause oscillation."),
        64 => ("Super Filter Slope", "Filter steepness. Higher slope = sharper cutoff."),
        65 => ("Super Filter Type", "Filter mode: LPF (lows pass), BPF (band pass), HPF (highs pass), or Notch."),
        66 => ("Switch Effect", "Enables or bypasses the MFX effect."),
        67 => ("TVA Attack Nuance Sens", "How playing nuance affects the amp envelope's attack time."),
        68 => ("TVA Attack Time", "Attack time of the amp envelope (\u{2212}50 to +50 relative to the tone's default)."),
        69 => ("TVA Attack Velocity Sens", "How playing strength affects attack time. Positive values shorten the attack with stronger picking."),
        70 => ("TVA Decay Time", "Decay time of the amp envelope."),
        71 => ("TVA Level Nuance Sens", "How playing nuance affects the tone's overall volume."),
        72 => ("TVA Release Time", "Release time of the amp envelope."),
        73 => ("TVA Sustain Level", "Sustain level of the amp envelope."),
        74 => ("TVF Attack Nuance Sens", "How playing nuance affects the filter envelope's attack time."),
        75 => ("TVF Attack Time", "Attack time of the filter envelope."),
        76 => ("TVF Attack Velocity Sens", "How playing strength affects the filter envelope's attack time."),
        77 => ("TVF Decay Time", "Decay time of the filter envelope."),
        78 => ("TVF Env Depth", "Depth of the filter envelope. Higher values produce a more pronounced envelope-driven sweep."),
        79 => ("TVF Release Time", "Release time of the filter envelope."),
        80 => ("TVF Sustain Level", "Sustain level of the filter envelope."),
        81 => ("Type", "Selects the MFX effect type. Each type produces a different effect; switching types preserves the other types' parameters."),
        82 => ("Velocity Curve Type", "Velocity-to-volume response curve. FIX = no velocity tracking; 1\u{2013}7 = preset curves; TONE = optimal curve for the selected tone."),
        83 => ("Wah Frequency", "Centre frequency of the wah filter."),
        84 => ("Wah Level", "Output level of the wah."),
        85 => ("Wah Mode", "How the wah is controlled (manual position, auto, or pedal-controlled)."),
        86 => ("Wah Peak", "Resonance / Q of the wah filter."),
        87 => ("Wah Pedal Position", "Manual wah filter position when not pedal-controlled."),
        88 => ("Wah Sens", "Sensitivity to input level for auto-wah modes."),
        _ => ("Wah Type", "Wah voicing \u{2014} different filter responses simulating classic wah pedals."),
    }
}

/// Help text for the parameter called `name`: the text of the first entry
/// with that name, or `None` when there is none.
pub fn help_for(name: &str) -> (r: Option<&'static str>)
    ensures
        r matches Some(t) ==> exists|i: int|
            0 <= i < HELP_ENTRY_COUNT && (#[trigger] help_entry(i)).0@ == name@ && t == help_entry(i).1
                && forall|j: int| 0 <= j < i ==> (#[trigger] help_entry(j)).0@ != name@,
        r is None ==> forall|i: int| 0 <= i < HELP_ENTRY_COUNT ==> (#[trigger] help_entry(i)).0@ != name@,
{
    let mut i: usize = 0;
    while i < HELP_ENTRY_COUNT
        invariant
            i <= HELP_ENTRY_COUNT,
            forall|j: int| 0 <= j < i ==> (#[trigger] help_entry(j)).0@ != name@,
        decreases HELP_ENTRY_COUNT - i,
    {
        let (n, t) = entry_at(i);
        if str_eq(n, name) {
            return Some(t);
        }
        i += 1;
    }
    None
}

/// Number of help entries.
pub fn entries() -> (r: usize)
    ensures
        r == HELP_ENTRY_COUNT,
{
    HELP_ENTRY_COUNT
}

} // verus!
