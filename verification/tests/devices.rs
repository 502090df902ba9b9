use live_subtitles::devices::device_entries;

#[test]
fn device_that_records_and_plays_is_offered_twice() {
    let entries = device_entries(3, "USB Audio", true, true, Some("USB Audio"), Some("Speakers"));
    assert_eq!(entries.len(), 2);
    assert_eq!(entries[0].id, "input:3:USB Audio");
    assert_eq!(entries[0].name, "USB Audio (麦克风)");
    assert_eq!(entries[0].device_type, "input");
    assert!(entries[0].is_default);
    assert_eq!(entries[1].id, "output:3:USB Audio");
    assert_eq!(entries[1].name, "USB Audio (系统音频)");
    assert_eq!(entries[1].device_type, "output");
    assert!(!entries[1].is_default);
}

#[test]
fn input_only_and_output_only() {
    let mic = device_entries(0, "Mic", true, false, None, Some("Mic"));
    assert_eq!(mic.len(), 1);
    assert_eq!(mic[0].id, "input:0:Mic");
    assert!(!mic[0].is_default);
    let out = device_entries(1, "Speakers", false, true, Some("Speakers"), Some("Speakers"));
    assert_eq!(out.len(), 1);
    assert_eq!(out[0].id, "output:1:Speakers");
    assert!(out[0].is_default);
    assert!(device_entries(2, "Dummy", false, false, None, None).is_empty());
}

#[test]
fn index_is_written_in_decimal() {
    assert_eq!(device_entries(10, "a", true, false, None, None)[0].id, "input:10:a");
    assert_eq!(device_entries(907, "a", false, true, None, None)[0].id, "output:907:a");
    assert_eq!(
        device_entries(1234567890, "", true, false, None, None)[0].id,
        "input:1234567890:"
    );
}

#[test]
fn default_is_told_by_the_exact_name() {
    assert!(!device_entries(0, "Mic", true, false, Some("mic"), None)[0].is_default);
    assert!(!device_entries(0, "Mic", true, false, Some("Mic 2"), None)[0].is_default);
    assert!(device_entries(0, "", true, false, Some(""), None)[0].is_default);
}
