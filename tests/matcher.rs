use charger_setup::error::SetupError;
use charger_setup::matcher::{
    any_reading_matches, choose_charger, decode_reading, find_by_characteristics, find_by_name,
    reading_matches, text_matches,
};
use charger_setup::text::text_contains;

const SN: &str = "60AE73B03BUQ059";

fn name(s: &str) -> Option<String> {
    Some(String::from(s))
}

#[test]
fn substring_search() {
    assert!(text_contains("Charger-60AE73B03BUQ059", SN));
    assert!(text_contains(SN, SN));
    assert!(text_contains("abc", ""));
    assert!(text_contains("", ""));
    assert!(!text_contains("", "a"));
    assert!(!text_contains("60AE73B03BUQ05", SN));
    assert!(!text_contains("abc", "abd"));
    assert!(text_contains("aaab", "aab"));
    assert!(text_contains("héllo wörld", "ö"));
    assert!(!text_contains("60ae73b03buq059", SN));
}

#[test]
fn text_match_needs_a_text() {
    assert!(!text_matches(&None, SN));
    assert!(!text_matches(&None, ""));
    assert!(text_matches(&name("x60AE73B03BUQ059y"), SN));
    assert!(!text_matches(&name("OtherDevice"), SN));
}

#[test]
fn selects_second_peripheral_by_name() {
    let names = vec![name("OtherDevice"), name("Charger-60AE73B03BUQ059")];
    let by_name = find_by_name(&names, SN);
    assert_eq!(by_name, Some(1));
    assert_eq!(choose_charger(by_name, None), Ok(1));
}

#[test]
fn name_match_wins_over_characteristics() {
    let names = vec![name("OtherDevice"), name("Charger-60AE73B03BUQ059")];
    assert_eq!(choose_charger(find_by_name(&names, SN), Some(0)), Ok(1));
}

#[test]
fn first_name_match_wins() {
    let names = vec![None, name("A-60AE73B03BUQ059"), name("B-60AE73B03BUQ059")];
    assert_eq!(find_by_name(&names, SN), Some(1));
}

#[test]
fn unnamed_peripherals_never_match_by_name() {
    let names: Vec<Option<String>> = vec![None, None];
    assert_eq!(find_by_name(&names, SN), None);
    assert_eq!(find_by_name(&Vec::new(), SN), None);
}

#[test]
fn falls_back_to_characteristic_value() {
    let names: Vec<Option<String>> = vec![None];
    let by_name = find_by_name(&names, SN);
    assert_eq!(by_name, None);
    let readings = vec![vec![Some(b"SN:60AE73B03BUQ059".to_vec())]];
    let by_characteristics = find_by_characteristics(&readings, SN);
    assert_eq!(by_characteristics, Some(0));
    assert_eq!(choose_charger(by_name, by_characteristics), Ok(0));
}

#[test]
fn failed_reads_are_skipped() {
    let readings = vec![
        vec![None, Some(b"firmware 1.2".to_vec())],
        vec![None, None, Some(b"SN:60AE73B03BUQ059".to_vec())],
    ];
    assert_eq!(find_by_characteristics(&readings, SN), Some(1));
}

#[test]
fn invalid_utf8_is_decoded_lossily() {
    let mut bytes = vec![0xffu8, 0xfe];
    bytes.extend_from_slice(SN.as_bytes());
    let readings = vec![vec![Some(bytes.clone())]];
    assert_eq!(find_by_characteristics(&readings, SN), Some(0));
    let decoded = decode_reading(&Some(bytes)).unwrap();
    assert_eq!(decoded, "\u{fffd}\u{fffd}60AE73B03BUQ059");
    assert_eq!(decode_reading(&None), None);
}

#[test]
fn first_characteristic_match_wins() {
    let readings = vec![
        vec![],
        vec![Some(b"60AE73B03BUQ059".to_vec())],
        vec![Some(b"60AE73B03BUQ059".to_vec())],
    ];
    assert_eq!(find_by_characteristics(&readings, SN), Some(1));
}

#[test]
fn nothing_matches_is_not_found() {
    let names = vec![name("OtherDevice"), None];
    let readings = vec![vec![Some(b"hello".to_vec()), None], vec![]];
    let by_name = find_by_name(&names, SN);
    let by_characteristics = find_by_characteristics(&readings, SN);
    assert_eq!(by_name, None);
    assert_eq!(by_characteristics, None);
    assert_eq!(
        choose_charger(by_name, by_characteristics),
        Err(SetupError::DeviceNotFound)
    );
}

#[test]
fn single_reads_are_checked() {
    assert!(reading_matches(&Some(b"SN:60AE73B03BUQ059".to_vec()), SN));
    assert!(!reading_matches(&Some(b"SN:60AE73B03".to_vec()), SN));
    assert!(!reading_matches(&None, SN));
    assert!(!reading_matches(&None, ""));
}

#[test]
fn reads_of_one_peripheral_are_checked() {
    let rs = vec![None, Some(b"nope".to_vec()), Some(b"x60AE73B03BUQ059".to_vec())];
    assert!(any_reading_matches(&rs, SN));
    assert!(!any_reading_matches(&rs[..2].to_vec(), SN));
    assert!(!any_reading_matches(&Vec::new(), SN));
}
