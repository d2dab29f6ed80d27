use minecraft_stats::username_cache::{LookupEntry, NameLookup, UsernameCache, UuidLookup};

fn entry(uuid: u128, name: &str) -> LookupEntry {
    LookupEntry { uuid, name: name.to_string() }
}

#[test]
fn user_cache_entries_fill_both_maps() {
    let c = UsernameCache::from_entries(vec![entry(1, "Alex"), entry(2, "Steve")]);
    assert_eq!(c.cached_uuid("Alex"), Some(1));
    assert_eq!(c.cached_uuid("Steve"), Some(2));
    assert_eq!(c.cached_name(1), Some("Alex".to_string()));
    assert_eq!(c.cached_name(3), None);
    assert_eq!(c.cached_uuid("alex"), None);
}

#[test]
fn later_entries_win() {
    let c = UsernameCache::from_entries(vec![entry(1, "Old"), entry(1, "New"), entry(2, "New")]);
    assert_eq!(c.cached_name(1), Some("New".to_string()));
    assert_eq!(c.cached_uuid("New"), Some(2));
    assert_eq!(c.cached_uuid("Old"), Some(1));
}

#[test]
fn lookups_miss_then_hit() {
    let mut c = UsernameCache::new();
    match c.begin_username_lookup("Notch") {
        UuidLookup::Fetch(url) => assert_eq!(url, "https://api.mojang.com/users/profiles/minecraft/Notch"),
        UuidLookup::Cached(_) => panic!("empty cache"),
    }
    let uuid = 0x069a79f444e94726a5befca90e38aaf5u128;
    assert_eq!(c.finish_username_lookup(Some(entry(uuid, "Notch"))), Some(uuid));
    match c.begin_username_lookup("Notch") {
        UuidLookup::Cached(u) => assert_eq!(u, uuid),
        UuidLookup::Fetch(_) => panic!("cached"),
    }
    match c.begin_uuid_lookup(uuid) {
        NameLookup::Cached(n) => assert_eq!(n, "Notch"),
        NameLookup::Fetch(_) => panic!("cached"),
    }
}

#[test]
fn name_lookup_by_uuid() {
    let mut c = UsernameCache::new();
    let uuid = 0x069a79f444e94726a5befca90e38aaf5u128;
    match c.begin_uuid_lookup(uuid) {
        NameLookup::Fetch(url) => assert_eq!(
            url,
            "https://api.minecraftservices.com/minecraft/profile/lookup/069a79f4-44e9-4726-a5be-fca90e38aaf5"
        ),
        NameLookup::Cached(_) => panic!("empty cache"),
    }
    assert_eq!(c.finish_uuid_lookup(None), None);
    assert_eq!(c.cached_name(uuid), None);
    assert_eq!(c.finish_uuid_lookup(Some(entry(uuid, "Notch"))), Some("Notch".to_string()));
    assert_eq!(c.cached_name(uuid), Some("Notch".to_string()));
    assert_eq!(c.cached_uuid("Notch"), Some(uuid));
}

#[test]
fn record_overwrites_both_directions() {
    let mut c = UsernameCache::new();
    c.record(5, "A".to_string());
    c.record(5, "B".to_string());
    assert_eq!(c.cached_name(5), Some("B".to_string()));
    assert_eq!(c.cached_uuid("A"), Some(5));
    assert_eq!(c.cached_uuid("B"), Some(5));
}

#[test]
fn default_cache_is_empty() {
    let c = UsernameCache::default();
    assert_eq!(c.cached_name(0), None);
    assert_eq!(c.cached_uuid(""), None);
}
