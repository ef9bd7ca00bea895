use gr55_core::help::{entries, entry_at, help_for};

#[test]
fn help_table_is_sorted() {
    for i in 1..entries() {
        let (a, _) = entry_at(i - 1);
        let (b, _) = entry_at(i);
        assert!(a < b, "help entries must stay sorted by name; found {a:?} before {b:?}");
    }
}

#[test]
fn help_lookups_hit_and_miss() {
    assert!(help_for("Filter Type").unwrap().contains("LPF"));
    assert!(help_for("LFO1 Rate").unwrap().contains("BPM"));
    assert!(help_for("Distortion Drive").unwrap().contains("saturation"));
    assert!(help_for("Equalizer Low Gain").unwrap().contains("Low band"));
    assert!(help_for("Definitely Not A Param").is_none());
}

#[test]
fn no_duplicate_names() {
    let mut names: Vec<&str> = (0..entries()).map(|i| entry_at(i).0).collect();
    names.sort_unstable();
    names.dedup();
    assert_eq!(names.len(), entries(), "duplicate names in the help table");
}

#[test]
fn help_table_bounds() {
    assert_eq!(entries(), 90);
    assert_eq!(entry_at(0).0, "Chorus Send Amp/Mod");
    assert_eq!(help_for("Wah Type"), Some(entry_at(89).1));
}
