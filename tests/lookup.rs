use batch_processor::lookup::{
    build_zip_county_map, get_county_code_for_zip, get_county_name_for_zip, get_fips_code_for_zip,
    load_zip_county_map, normalize_zip, ZipCountyInfo, ZipCountyMap,
};

#[test]
fn zip_plus_four_is_cut_at_the_hyphen() {
    assert_eq!(normalize_zip("98115-1234"), "98115");
}

#[test]
fn short_zip_is_kept_as_is() {
    assert_eq!(normalize_zip("981"), "981");
}

#[test]
fn five_digit_zip_is_kept() {
    assert_eq!(normalize_zip("98115"), "98115");
}

#[test]
fn long_zip_without_hyphen_keeps_five_characters() {
    assert_eq!(normalize_zip("981151234"), "98115");
    assert_eq!(normalize_zip(""), "");
    assert_eq!(normalize_zip("-1234"), "");
}

#[test]
fn builtin_table_gives_codes_and_names() {
    let map = load_zip_county_map();
    assert_eq!(get_county_code_for_zip("98602-1234", &map), Some("20".to_string()));
    assert_eq!(get_fips_code_for_zip("98602", &map), Some("039".to_string()));
    assert_eq!(get_county_name_for_zip("98602", &map), Some("Klickitat County".to_string()));
    assert_eq!(get_county_code_for_zip("99403", &map), Some("02".to_string()));
    assert_eq!(get_fips_code_for_zip("99403", &map), Some("003".to_string()));
    assert_eq!(get_county_name_for_zip("99403", &map), Some("Asotin County".to_string()));
    assert_eq!(map.len(), 263);
}

#[test]
fn unknown_or_short_zips_are_absent() {
    let map = load_zip_county_map();
    assert_eq!(get_county_code_for_zip("00000", &map), None);
    assert_eq!(get_fips_code_for_zip("986", &map), None);
    assert_eq!(get_county_name_for_zip("", &map), None);
}

#[test]
fn build_skips_malformed_entries_and_unknown_counties() {
    let counties = vec![("17", "033", "King County")];
    let entries = vec!["98115:17:A", "bad", "98040:99:B", "1:2:3:4"];
    let map = build_zip_county_map(&counties, &entries);
    let king = map.get("98115").unwrap();
    assert_eq!(king.fips_code, "033");
    assert_eq!(king.county_name, "King County");
    assert_eq!(king.division, "A");
    let unknown = map.get("98040").unwrap();
    assert_eq!(unknown.county_code, "99");
    assert_eq!(unknown.fips_code, "");
    assert_eq!(unknown.county_name, "");
    assert!(map.get("bad").is_none());
    assert!(map.get("1").is_none());
}

#[test]
fn later_entry_replaces_earlier_one() {
    let counties = vec![("01", "001", "A"), ("02", "003", "B")];
    let entries = vec!["11111:01:A", "11111:02:B"];
    let map = build_zip_county_map(&counties, &entries);
    assert_eq!(map.get("11111").unwrap().fips_code, "003");
}

#[test]
fn map_insert_and_get() {
    let mut map = ZipCountyMap::new();
    assert_eq!(map.len(), 0);
    assert!(map.get("98115").is_none());
    map.insert(
        "98115".to_string(),
        ZipCountyInfo {
            county_code: "17".to_string(),
            division: "A".to_string(),
            fips_code: "033".to_string(),
            county_name: "King County".to_string(),
        },
    );
    assert_eq!(get_county_code_for_zip("98115-0001", &map), Some("17".to_string()));
    assert_eq!(map.len(), 1);
}
