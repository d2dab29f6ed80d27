use minecraft_stats::config::{join_path, parse_unsigned_decimal, resolve_database_url, Config, EnvironmentValues};

fn env() -> EnvironmentValues {
    EnvironmentValues {
        port: None,
        database_pool_size: None,
        database_concurrency_limit: None,
        database_url: None,
        world_path: None,
        current_dir: Some("/srv/mc".to_string()),
    }
}

#[test]
fn defaults_when_nothing_is_set() {
    let c = Config::from_environment(env());
    assert_eq!(c.port, "80");
    assert_eq!(c.database_pool_size, 30);
    assert_eq!(c.database_concurrency_limit, 2);
    assert_eq!(c.database_url, "sqlite:///srv/mc/data/mcstats.db");
    assert_eq!(c.world_folder, "data/world");
    assert_eq!(c.usercache_path, "data/usercache.json");
    assert_eq!(c.stats_folder(), "data/world/stats");
    assert_eq!(c.database_file(), Some("/srv/mc/data/mcstats.db".to_string()));
    assert_eq!(c.listen_address(), "0.0.0.0:80");
}

#[test]
fn values_that_are_set_are_used() {
    let mut e = env();
    e.port = Some("8080".to_string());
    e.database_pool_size = Some("12".to_string());
    e.database_concurrency_limit = Some("+4".to_string());
    e.world_path = Some("/worlds/main/".to_string());
    let c = Config::from_environment(e);
    assert_eq!(c.port, "8080");
    assert_eq!(c.database_pool_size, 12);
    assert_eq!(c.database_concurrency_limit, 4);
    assert_eq!(c.stats_folder(), "/worlds/main/stats");
    assert_eq!(c.listen_address(), "0.0.0.0:8080");
}

#[test]
fn unreadable_numbers_fall_back_to_defaults() {
    let mut e = env();
    e.database_pool_size = Some("4294967296".to_string());
    e.database_concurrency_limit = Some("-1".to_string());
    let c = Config::from_environment(e);
    assert_eq!(c.database_pool_size, 30);
    assert_eq!(c.database_concurrency_limit, 2);
}

#[test]
fn unsigned_parsing_matches_std() {
    let cases = ["0", "7", "+7", "007", "4294967295", "4294967296", "", "+", "-3", " 5", "5 ", "1_0", "x", "+-1", "99999999999999999999999"];
    for s in cases {
        assert_eq!(parse_unsigned_decimal(s, u32::MAX as u64), s.parse::<u32>().ok().map(|v| v as u64), "{s}");
        assert_eq!(parse_unsigned_decimal(s, u64::MAX), s.parse::<u64>().ok(), "{s}");
    }
}

#[test]
fn file_urls_are_given_the_sqlite_scheme() {
    let mut e = env();
    e.database_url = Some("stats.db".to_string());
    let c = Config::from_environment(e);
    assert_eq!(c.database_url, "sqlite:///srv/mc/stats.db");
}

#[test]
fn absolute_and_foreign_urls_are_kept() {
    let mut e = env();
    e.database_url = Some("sqlite:///var/lib/db.sqlite".to_string());
    assert_eq!(Config::from_environment(e).database_url, "sqlite:///var/lib/db.sqlite");
    let mut e = env();
    e.database_url = Some("sqlite::memory:".to_string());
    let c = Config::from_environment(e);
    assert_eq!(c.database_url, "sqlite::memory:");
    assert_eq!(c.database_file(), None);
}

#[test]
fn relative_file_without_working_directory_stays_relative() {
    assert_eq!(resolve_database_url("sqlite://a/b.db".to_string(), &None), "sqlite://a/b.db");
    assert_eq!(resolve_database_url("sqlite://a/b.db".to_string(), &Some("/".to_string())), "sqlite:///a/b.db");
}

#[test]
fn resolving_twice_changes_nothing() {
    let cwd = Some("/home/x".to_string());
    for url in ["sqlite://rel.db", "sqlite:///abs.db", "sqlite:x", "sqlite://"] {
        let once = resolve_database_url(url.to_string(), &cwd);
        let twice = resolve_database_url(once.clone(), &cwd);
        assert_eq!(once, twice);
    }
}

#[test]
fn join_inserts_one_separator() {
    assert_eq!(join_path("a", "b"), "a/b");
    assert_eq!(join_path("a/", "b"), "a/b");
    assert_eq!(join_path("", "b"), "b");
    assert_eq!(join_path("/", "b"), "/b");
    for (base, rel) in [("a", "b"), ("a/", "b"), ("", "b"), ("/", "b"), ("/x/y", "stats")] {
        let std_joined = std::path::Path::new(base).join(rel);
        assert_eq!(join_path(base, rel), std_joined.to_str().unwrap());
    }
}
