use minecraft_stats::paths::{extract_uuid, file_extension, file_stem, is_stats_file, player_uuid_from_parsed, FileNameError};
use minecraft_stats::player_id::{parse_uuid, uuid_text};

#[test]
fn uuid_text_is_hyphenated_lowercase() {
    let v = 0x67e5504410b1426f9247bb680e5fe0c8u128;
    assert_eq!(uuid_text(v), "67e55044-10b1-426f-9247-bb680e5fe0c8");
    assert_eq!(uuid_text(0), "00000000-0000-0000-0000-000000000000");
    assert_eq!(uuid_text(u128::MAX), "ffffffff-ffff-ffff-ffff-ffffffffffff");
    for v in [1u128, 0xdeadbeef, 0x0123456789abcdef0123456789abcdef] {
        assert_eq!(uuid_text(v), uuid::Uuid::from_u128(v).to_string());
    }
}

#[test]
fn uuid_forms_are_parsed() {
    let v = 0x67e5504410b1426f9247bb680e5fe0c8u128;
    assert_eq!(parse_uuid("67e55044-10b1-426f-9247-bb680e5fe0c8"), Some(v));
    assert_eq!(parse_uuid("67E55044-10B1-426F-9247-BB680E5FE0C8"), Some(v));
    assert_eq!(parse_uuid("67e5504410b1426f9247bb680e5fe0c8"), Some(v));
    assert_eq!(parse_uuid("{67e55044-10b1-426f-9247-bb680e5fe0c8}"), Some(v));
    assert_eq!(parse_uuid("not-a-uuid"), None);
    assert_eq!(parse_uuid(""), None);
}

#[test]
fn uuid_text_reads_back() {
    for v in [0u128, 1, 0xabcdef, u128::MAX, 0x0123456789abcdef0123456789abcdef] {
        assert_eq!(parse_uuid(&uuid_text(v)), Some(v));
    }
}

#[test]
fn extensions_follow_the_last_dot() {
    assert_eq!(file_extension("a.json"), Some("json".to_string()));
    assert_eq!(file_extension("a.b.json"), Some("json".to_string()));
    assert_eq!(file_extension("a."), Some(String::new()));
    assert_eq!(file_extension(".json"), None);
    assert_eq!(file_extension("json"), None);
    assert_eq!(file_extension(".a.json"), Some("json".to_string()));
    for n in ["a.json", "a.b.json", "a.", ".json", "json", ".a.json", "x.JSON", ""] {
        let p = std::path::Path::new(n);
        assert_eq!(file_extension(n), p.extension().map(|e| e.to_str().unwrap().to_string()), "{n}");
        if !n.is_empty() {
            assert_eq!(file_stem(n), p.file_stem().unwrap().to_str().unwrap(), "{n}");
        }
    }
}

#[test]
fn stems_drop_the_extension() {
    assert_eq!(file_stem("abc.json"), "abc");
    assert_eq!(file_stem("a.b.json"), "a.b");
    assert_eq!(file_stem(".json"), ".json");
    assert_eq!(file_stem("noext"), "noext");
}

#[test]
fn only_json_files_are_stats_files() {
    assert!(is_stats_file("67e55044-10b1-426f-9247-bb680e5fe0c8.json"));
    assert!(!is_stats_file("67e55044-10b1-426f-9247-bb680e5fe0c8.json.tmp"));
    assert!(!is_stats_file(".json"));
    assert!(!is_stats_file("stats.JSON"));
    assert!(!is_stats_file("json"));
}

#[test]
fn player_of_a_stats_file() {
    let v = 0x67e5504410b1426f9247bb680e5fe0c8u128;
    assert_eq!(extract_uuid(Some("67e55044-10b1-426f-9247-bb680e5fe0c8.json")), Ok(v));
    assert_eq!(extract_uuid(Some(&format!("{}.json", uuid_text(42)))), Ok(42));
    assert_eq!(extract_uuid(Some("notes.json")), Err(FileNameError::InvalidUuid));
    assert_eq!(extract_uuid(None), Err(FileNameError::InvalidFileName));
}

#[test]
fn parsed_uuid_maps_to_player() {
    assert_eq!(player_uuid_from_parsed(Some(5)), Ok(5));
    assert_eq!(player_uuid_from_parsed(None), Err(FileNameError::InvalidUuid));
}

#[test]
fn distinct_uuids_have_distinct_texts() {
    let values = [0u128, 1, 16, 1 << 64, u128::MAX, u128::MAX - 1, 0x0123456789abcdef0123456789abcdef];
    for (i, a) in values.iter().enumerate() {
        for (j, b) in values.iter().enumerate() {
            assert_eq!(uuid_text(*a) == uuid_text(*b), i == j);
        }
    }
}
