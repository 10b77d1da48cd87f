use ducker::devices::{bytes_le, device_names, find_device};

#[test]
fn device_names_are_sorted_and_unreadable_ones_dropped() {
    let names = vec![
        Some("USB Audio".to_string()),
        None,
        Some("BlackHole 2ch".to_string()),
        Some("EVO 4".to_string()),
        Some("BlackHole 2ch".to_string()),
    ];
    assert_eq!(
        device_names(names),
        vec!["BlackHole 2ch", "BlackHole 2ch", "EVO 4", "USB Audio"]
    );
    assert_eq!(device_names(vec![None, None]), Vec::<String>::new());
}

#[test]
fn device_names_match_std_sort() {
    let raw = vec!["b", "a", "ab", "", "Z", "é", "e", "aa"];
    let mut expected: Vec<String> = raw.iter().map(|s| s.to_string()).collect();
    expected.sort();
    let got = device_names(raw.iter().map(|s| Some(s.to_string())).collect());
    assert_eq!(got, expected);
}

#[test]
fn byte_order_puts_prefixes_first() {
    assert!(bytes_le(b"ab", b"abc"));
    assert!(!bytes_le(b"abc", b"ab"));
    assert!(bytes_le(b"", b""));
    assert!(bytes_le(b"B", b"a"));
}

#[test]
fn find_device_takes_the_first_match() {
    let names = vec![None, Some("EVO 4".to_string()), Some("EVO 4".to_string())];
    assert_eq!(find_device(&names, &Some("EVO 4".to_string())), Some(1));
    assert_eq!(find_device(&names, &Some("EVO".to_string())), None);
    assert_eq!(find_device(&names, &None), None);
}
