use ep::charmap::{convert_custom_character, custom_character_table, lookup};

#[test]
fn known_codes_have_their_replacement() {
    assert_eq!(convert_custom_character(0xb667), Some("[ローマ字]"));
    assert_eq!(convert_custom_character(0xb65e), Some("▶ "));
    assert_eq!(convert_custom_character(0xb66b), Some("◧"));
    assert_eq!(convert_custom_character(0xa239), Some("ū"));
}

#[test]
fn arrow_replacement_keeps_its_trailing_space() {
    let found = convert_custom_character(0xb65e).unwrap();
    assert_eq!(found.chars().count(), 2);
    assert!(found.ends_with(' '));
}

#[test]
fn unknown_codes_have_none() {
    assert_eq!(convert_custom_character(0x1234), None);
    assert_eq!(convert_custom_character(0), None);
    assert_eq!(convert_custom_character(0xffff), None);
    assert_eq!(convert_custom_character(0xb666), None);
    assert_eq!(convert_custom_character(0xb668), None);
    assert_eq!(convert_custom_character(0xa238), None);
}

#[test]
fn only_four_codes_are_known() {
    let mut known: u32 = 0;
    for code in 0..=u16::MAX {
        if convert_custom_character(code).is_some() {
            known += 1;
        }
    }
    assert_eq!(known, 4);
}

#[test]
fn answers_do_not_depend_on_earlier_calls() {
    assert_eq!(convert_custom_character(0x1234), None);
    assert_eq!(convert_custom_character(0xa239), Some("ū"));
    assert_eq!(convert_custom_character(0x1234), None);
    assert_eq!(convert_custom_character(0xb66b), Some("◧"));
    assert_eq!(convert_custom_character(0xa239), Some("ū"));
    assert_eq!(convert_custom_character(0xb66b), Some("◧"));
}

#[test]
fn table_lists_the_four_entries() {
    let table = custom_character_table();
    assert_eq!(
        table,
        vec![(0xb667u16, "[ローマ字]"), (0xb65eu16, "▶ "), (0xb66bu16, "◧"), (0xa239u16, "ū")]
    );
}

#[test]
fn lookup_takes_the_first_entry_with_the_code() {
    let table = vec![(1u16, "one"), (2u16, "two"), (1u16, "uno")];
    assert_eq!(lookup(&table, 1), Some("one"));
    assert_eq!(lookup(&table, 2), Some("two"));
    assert_eq!(lookup(&table, 3), None);
}

#[test]
fn lookup_in_an_empty_table_finds_nothing() {
    let table: Vec<(u16, &'static str)> = Vec::new();
    assert_eq!(lookup(&table, 0xa239), None);
}
