use gr55_core::pcm_tail_keys::{classify, parse_hex_key, resolve_inner_key, resolve_trimmed_key};
use gr55_core::pcm_tail_params::{param_for, pcm_tail_params, PcmTailGroup};

#[test]
fn table_indexed_by_offset() {
    for (i, entry) in pcm_tail_params().iter().enumerate() {
        assert_eq!(entry.offset as usize, i);
    }
}

#[test]
fn spot_check_known_params() {
    let t = pcm_tail_params();
    assert_eq!(t[0x00].name, "Filter Type");
    assert_eq!(t[0x00].group, PcmTailGroup::Filter);

    assert_eq!(t[0x14].name, "TVA Attack Velocity Sens");
    assert_eq!(t[0x14].group, PcmTailGroup::Tva);

    assert_eq!(t[0x1B].name, "Portamento Type");
    assert_eq!(t[0x1B].group, PcmTailGroup::Portamento);

    assert_eq!(t[0x1D].group, PcmTailGroup::Reserved);
    assert_eq!(t[0x1D].name, "");
    assert_eq!(t[0x23].group, PcmTailGroup::Reserved);

    assert_eq!(t[0x1C].name, "LFO1 Rate");
    assert_eq!(t[0x22].name, "LFO2 Rate");
}

#[test]
fn enriched_metadata_covers_known_params() {
    let t = pcm_tail_params();
    let ft = &t[0x00];
    assert_eq!(ft.values.len(), 8);
    assert_eq!(ft.values[0], (0x00, "OFF"));
    assert_eq!(ft.values[7], (0x07, "TONE"));
    assert!(ft.range.is_none());
    assert!(ft.help.contains("LPF: low-pass"));

    let cutoff = &t[0x01];
    assert!(cutoff.values.is_empty());
    assert_eq!(cutoff.range, Some((0x00, 0x64)));
    assert_eq!(cutoff.display_range, Some((-50, 50)));
    assert!(cutoff.help.starts_with("Specifies the frequency"));

    let pe_depth = &t[0x18];
    assert_eq!(pe_depth.range, Some((0x00, 0x18)));
    assert_eq!(pe_depth.display_range, Some((-12, 12)));

    let pt = &t[0x1B];
    assert_eq!(pt.values, &[(0x00, "RATE"), (0x01, "TIME")]);
    assert!(pt.help.contains("RATE") && pt.help.contains("TIME"));

    let reserved = &t[0x1D];
    assert!(reserved.values.is_empty());
    assert!(reserved.range.is_none());
    assert_eq!(reserved.help, "");
}

#[test]
fn param_for_returns_none_beyond_documented_range() {
    assert!(param_for(0x28).is_none());
    assert!(param_for(0x7F).is_none());
    assert_eq!(param_for(0x00).map(|p| p.name), Some("Filter Type"));
    assert_eq!(param_for(0x27).map(|p| p.name), Some("LFO2 Pan Depth"));
}

#[test]
fn classify_picks_group_for_known_offsets() {
    let (g, n) = classify(0x00);
    assert_eq!(g, "filter");
    assert_eq!(n, "Filter Type");
    let (g, n) = classify(0x1B);
    assert_eq!(g, "portamento");
    assert_eq!(n, "Portamento Type");
    let (g, n) = classify(0x27);
    assert_eq!(g, "lfo");
    assert_eq!(n, "LFO2 Pan Depth");
}

#[test]
fn unmapped_offsets_classify_to_hex_keys() {
    let (g, n) = classify(0x30);
    assert_eq!(g, "unmapped");
    assert_eq!(n, "0x30");
    let (g, n) = classify(0x1D);
    assert_eq!(g, "unmapped");
    assert_eq!(n, "0x1D");
}

#[test]
fn group_names_round_trip() {
    for g in [PcmTailGroup::Filter, PcmTailGroup::Tva, PcmTailGroup::Portamento, PcmTailGroup::Lfo, PcmTailGroup::Reserved] {
        assert_eq!(PcmTailGroup::from_snake(g.as_snake()), Some(g));
    }
    assert_eq!(PcmTailGroup::from_snake("no_such_group"), None);
}

#[test]
fn keys_resolve_back_to_offsets() {
    assert_eq!(parse_hex_key("0x30"), Some(0x30));
    assert_eq!(parse_hex_key("0xZZ"), None);
    assert_eq!(resolve_trimmed_key("filter", "Filter Type"), Some(0x00));
    assert_eq!(resolve_trimmed_key("unmapped", "0x30"), Some(0x30));
    assert_eq!(resolve_inner_key("lfo", "  LFO2 Pan Depth  "), Some(0x27));
    assert_eq!(resolve_trimmed_key("filter", "Portamento Type"), None);
}

#[test]
fn keys_with_surrounding_whitespace_resolve() {
    assert_eq!(resolve_inner_key("lfo", "\tLFO2 Pan Depth\n"), Some(0x27));
    assert_eq!(resolve_inner_key("unmapped", " 0x30 "), Some(0x30));
    assert_eq!(resolve_inner_key("filter", "\u{3000}Cutoff\u{A0}"), Some(0x01));
}
