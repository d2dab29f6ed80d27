use minecraft_stats::stats_file::StatsFile;

fn sample() -> StatsFile {
    let mut f = StatsFile::new();
    f.insert("minecraft:mined".to_string(), "minecraft:stone".to_string(), 10);
    f.insert("minecraft:used".to_string(), "minecraft:torch".to_string(), 3);
    f.insert("minecraft:mined".to_string(), "minecraft:dirt".to_string(), 4);
    f.insert("minecraft:custom".to_string(), "minecraft:jump".to_string(), 99);
    f
}

#[test]
fn recorded_values_read_back() {
    let f = sample();
    assert_eq!(f.get("minecraft:mined", "minecraft:stone"), Some(10));
    assert_eq!(f.get("minecraft:mined", "minecraft:dirt"), Some(4));
    assert_eq!(f.get("minecraft:used", "minecraft:stone"), None);
    assert_eq!(f.total_stats(), 4);
}

#[test]
fn recording_again_replaces_the_value() {
    let mut f = sample();
    f.insert("minecraft:mined".to_string(), "minecraft:stone".to_string(), -1);
    assert_eq!(f.get("minecraft:mined", "minecraft:stone"), Some(-1));
    assert_eq!(f.get("minecraft:mined", "minecraft:dirt"), Some(4));
    assert_eq!(f.total_stats(), 4);
}

#[test]
fn categories_are_listed_once_in_order() {
    let f = sample();
    assert_eq!(f.category_names(), vec!["minecraft:mined", "minecraft:used", "minecraft:custom"]);
    assert_eq!(
        f.stats_in("minecraft:mined"),
        vec![("minecraft:stone".to_string(), 10), ("minecraft:dirt".to_string(), 4)]
    );
    assert!(f.stats_in("minecraft:killed").is_empty());
}

#[test]
fn categories_cover_every_stat_once() {
    let f = sample();
    let sum: usize = f.category_names().iter().map(|c| f.stats_in(c).len()).sum();
    assert_eq!(sum, f.total_stats());
    let empty = StatsFile::new();
    assert_eq!(empty.total_stats(), 0);
    assert!(empty.category_names().is_empty());
}
