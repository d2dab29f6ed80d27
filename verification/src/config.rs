//! Runtime configuration and the rules that derive it from environment values.

use vstd::prelude::*;
use vstd::string::*;
use crate::text::{chars_of, concat, is_prefix_of, push_char, starts_with, string_of_range};

verus! {

/// Settings of the service.
#[derive(Clone)]
pub struct Config {
    pub database_url: String,
    pub database_pool_size: u32,
    pub database_concurrency_limit: usize,
    pub world_folder: String,
    pub usercache_path: String,
    pub port: String,
}

/// The environment values the configuration is derived from; `None` stands
/// for a variable that is unset or not valid Unicode.
pub struct EnvironmentValues {
    pub port: Option<String>,
    pub database_pool_size: Option<String>,
    pub database_concurrency_limit: Option<String>,
    pub database_url: Option<String>,
    pub world_path: Option<String>,
    /// The working directory of the process, if it could be read.
    pub current_dir: Option<String>,
}

pub open spec fn is_ascii_digit(c: char) -> bool {
    '0' <= c && c <= '9'
}

pub open spec fn digit_value(c: char) -> int {
    c as int - '0' as int
}

pub open spec fn all_digits(s: Seq<char>) -> bool {
    forall|i: int| 0 <= i < s.len() ==> is_ascii_digit(#[trigger] s[i])
}

/// The number a string of decimal digits denotes.
pub open spec fn decimal_value(s: Seq<char>) -> int
    decreases s.len(),
{
    if s.len() == 0 {
        0
    } else {
        decimal_value(s.drop_last()) * 10 + digit_value(s.last())
    }
}

/// The digits of an unsigned number: the text after an optional leading `+`.
pub open spec fn unsigned_digits(s: Seq<char>) -> Seq<char> {
    if s.len() > 0 && s[0] == '+' {
        s.subrange(1, s.len() as int)
    } else {
        s
    }
}

/// How the standard library reads an unsigned integer no larger than `max`:
/// an optional `+` followed by at least one decimal digit and nothing else,
/// denoting a value that does not exceed `max`.
pub open spec fn parse_unsigned(s: Seq<char>, max: int) -> Option<int> {
    let d = unsigned_digits(s);
    if d.len() > 0 && all_digits(d) && decimal_value(d) <= max {
        Some(decimal_value(d))
    } else {
        None
    }
}

proof fn lemma_decimal_nonneg(s: Seq<char>)
    requires
        all_digits(s),
    ensures
        decimal_value(s) >= 0,
    decreases s.len(),
{
    if s.len() > 0 {
        assert(is_ascii_digit(s[s.len() - 1]));
        lemma_decimal_nonneg(s.drop_last());
    }
}

/// Reads an unsigned decimal number no larger than `max`, as `str::parse` does.
pub fn parse_unsigned_decimal(s: &str, max: u64) -> (r: Option<u64>)
    ensures
        r is Some <==> parse_unsigned(s@, max as int) is Some,
        r matches Some(n) ==> parse_unsigned(s@, max as int) == Some(n as int),
{
    let all = chars_of(s);
    let start: usize = if all.len() > 0 && all[0] == '+' { 1 } else { 0 };
    let ghost d = unsigned_digits(s@);
    assert(d =~= all@.subrange(start as int, all@.len() as int));
    if start == all.len() {
        assert(unsigned_digits(s@).len() == 0);
        assert(parse_unsigned(s@, max as int) is None);
        return None;
    }
    let mut acc: u64 = 0;
    let mut i: usize = start;
    let mut too_large = false;
    while i < all.len()
        invariant
            all@ == s@,
            d == unsigned_digits(s@),
            start <= i <= all.len(),
            d == all@.subrange(start as int, all@.len() as int),
            forall|j: int| 0 <= j < i - start ==> is_ascii_digit(#[trigger] d[j]),
            !too_large ==> acc == decimal_value(d.subrange(0, i - start)),
            !too_large ==> acc <= max,
            too_large ==> decimal_value(d.subrange(0, i - start)) > max,
        decreases all.len() - i,
    {
        let c = all[i];
        if !('0' <= c && c <= '9') {
            assert(d[i - start] == c);
            assert(!all_digits(d));
            assert(parse_unsigned(s@, max as int) is None);
            return None;
        }
        let ghost prev = d.subrange(0, i - start);
        let ghost next = d.subrange(0, i + 1 - start);
        assert(next.drop_last() =~= prev);
        assert(next.last() == c);
        proof {
            assert forall|j: int| 0 <= j < prev.len() implies is_ascii_digit(#[trigger] prev[j]) by {
                assert(prev[j] == d[j]);
            }
            lemma_decimal_nonneg(prev);
        }
        if !too_large {
            let digit = (c as u32 - '0' as u32) as u64;
            match acc.checked_mul(10) {
                Some(m) => match m.checked_add(digit) {
                    Some(v) => {
                        if v <= max {
                            acc = v;
                        } else {
                            too_large = true;
                        }
                    },
                    None => {
                        too_large = true;
                    },
                },
                None => {
                    too_large = true;
                },
            }
        } else {
            assert(decimal_value(next) >= decimal_value(prev)) by (nonlinear_arith)
                requires
                    decimal_value(next) == decimal_value(prev) * 10 + digit_value(c),
                    decimal_value(prev) >= 0,
                    is_ascii_digit(c),
            ;
        }
        i = i + 1;
    }
    assert(d.subrange(0, d.len() as int) =~= d);
    assert(all_digits(d));
    if too_large {
        None
    } else {
        Some(acc)
    }
}

/// `path` names a location from the root of the file system.
pub open spec fn is_absolute_path(path: Seq<char>) -> bool {
    path.len() > 0 && path[0] == '/'
}

/// `base` with the relative path `rel` adjoined, a separator being inserted
/// unless `base` is empty or already ends with one.
pub open spec fn join_relative(base: Seq<char>, rel: Seq<char>) -> Seq<char> {
    if base.len() > 0 && base.last() != '/' {
        base + seq!['/'] + rel
    } else {
        base + rel
    }
}

/// Adjoins the relative path `rel` to `base`.
pub fn join_path(base: &str, rel: &str) -> (r: String)
    ensures
        r@ == join_relative(base@, rel@),
{
    let n = base.unicode_len();
    let mut r = String::from_str(base);
    if n > 0 && base.get_char(n - 1) != '/' {
        push_char(&mut r, '/');
    }
    r.append(rel);
    r
}

/// The database URL asked for: a value naming an `sqlite` URL is kept,
/// any other value is taken as a file and given the `sqlite://` scheme.
pub open spec fn requested_database_url(env_url: Option<Seq<char>>) -> Seq<char> {
    match env_url {
        Some(u) => if is_prefix_of("sqlite"@, u) { u } else { "sqlite://"@ + u },
        None => "sqlite://data/mcstats.db"@,
    }
}

/// The file that an `sqlite://` URL names, made absolute against the
/// working directory when it is relative and the directory is known.
pub open spec fn absolute_database_file(path: Seq<char>, cwd: Option<Seq<char>>) -> Seq<char> {
    if is_absolute_path(path) {
        path
    } else {
        match cwd {
            Some(c) => join_relative(c, path),
            None => path,
        }
    }
}

/// The URL the service connects to.
pub open spec fn resolved_database_url(url: Seq<char>, cwd: Option<Seq<char>>) -> Seq<char> {
    if is_prefix_of("sqlite://"@, url) {
        "sqlite://"@ + absolute_database_file(url.subrange(9, url.len() as int), cwd)
    } else {
        url
    }
}

/// The URL asked for always names an `sqlite` database.
pub proof fn lemma_requested_url_is_sqlite(env_url: Option<Seq<char>>)
    ensures
        is_prefix_of("sqlite"@, requested_database_url(env_url)),
{
    reveal_strlit("sqlite");
    reveal_strlit("sqlite://");
    reveal_strlit("sqlite://data/mcstats.db");
    let u = requested_database_url(env_url);
    match env_url {
        Some(v) => {
            if !is_prefix_of("sqlite"@, v) {
                assert(u.subrange(0, 6) =~= "sqlite"@);
            }
        },
        None => {
            assert(u.subrange(0, 6) =~= "sqlite"@);
        },
    }
}

/// Resolving a URL keeps its `sqlite` scheme.
pub proof fn lemma_resolution_keeps_sqlite(url: Seq<char>, cwd: Option<Seq<char>>)
    requires
        is_prefix_of("sqlite"@, url),
    ensures
        is_prefix_of("sqlite"@, resolved_database_url(url, cwd)),
{
    reveal_strlit("sqlite");
    reveal_strlit("sqlite://");
    let r = resolved_database_url(url, cwd);
    if is_prefix_of("sqlite://"@, url) {
        assert(r.subrange(0, 6) =~= "sqlite"@);
    }
}

/// Resolving the URL a second time changes nothing when the working
/// directory is absolute: the configuration is stable.
pub proof fn lemma_resolution_is_stable(url: Seq<char>, cwd: Option<Seq<char>>)
    requires
        cwd matches Some(c) ==> is_absolute_path(c),
    ensures
        resolved_database_url(resolved_database_url(url, cwd), cwd) == resolved_database_url(url, cwd),
{
    reveal_strlit("sqlite://");
    if is_prefix_of("sqlite://"@, url) {
        let path = url.subrange(9, url.len() as int);
        let file = absolute_database_file(path, cwd);
        let r = "sqlite://"@ + file;
        assert(r.subrange(0, 9) =~= "sqlite://"@);
        assert(r.subrange(9, r.len() as int) =~= file);
        if !is_absolute_path(path) {
            if let Some(c) = cwd {
                let j = join_relative(c, path);
                assert(j[0] == c[0]);
            }
        }
        assert(absolute_database_file(file, cwd) == file);
    }
}

/// A database value that is not an `sqlite` URL is taken as a file and
/// given the `sqlite://` scheme unchanged; an absolute file is then kept as
/// it is whatever the working directory, and a relative one is joined to
/// the working directory.
pub proof fn lemma_file_urls_get_sqlite_scheme(u: Seq<char>, cwd: Option<Seq<char>>)
    requires
        !is_prefix_of("sqlite"@, u),
    ensures
        requested_database_url(Some(u)) == "sqlite://"@ + u,
        is_absolute_path(u) ==> resolved_database_url("sqlite://"@ + u, cwd) == "sqlite://"@ + u,
        !is_absolute_path(u) && cwd is Some ==> resolved_database_url("sqlite://"@ + u, cwd)
            == "sqlite://"@ + join_relative(cwd->0, u),
        !is_absolute_path(u) && cwd is None ==> resolved_database_url("sqlite://"@ + u, cwd)
            == "sqlite://"@ + u,
{
    reveal_strlit("sqlite://");
    let url = "sqlite://"@ + u;
    assert(url.subrange(0, 9) =~= "sqlite://"@);
    assert(url.subrange(9, url.len() as int) =~= u);
}

/// Joining a relative path to a directory puts exactly one separator
/// between them: the directory, a `/` unless it already ends with one, then
/// the path.
pub proof fn lemma_join_relative_shape(base: Seq<char>, rel: Seq<char>)
    requires
        base.len() > 0,
    ensures
        base.last() != '/' ==> join_relative(base, rel) == base + seq!['/'] + rel,
        base.last() == '/' ==> join_relative(base, rel) == base + rel,
        is_prefix_of(base, join_relative(base, rel)),
        join_relative(base, rel).subrange(
            join_relative(base, rel).len() - rel.len(),
            join_relative(base, rel).len() as int,
        ) == rel,
{
    let j = join_relative(base, rel);
    assert(j.subrange(0, base.len() as int) =~= base);
    assert(j.subrange(j.len() - rel.len(), j.len() as int) =~= rel);
}

/// A run of decimal digits, optionally after a `+`, reads as the number it
/// denotes when that number is at most `max`, and as nothing otherwise;
/// each further digit multiplies the value by ten and adds the digit.
pub proof fn lemma_unsigned_reading(d: Seq<char>, c: char, max: int)
    requires
        d.len() > 0,
        all_digits(d),
        is_ascii_digit(c),
        d[0] != '+',
    ensures
        decimal_value(d) <= max ==> parse_unsigned(d, max) == Some(decimal_value(d)),
        decimal_value(d) > max ==> parse_unsigned(d, max) is None,
        parse_unsigned(seq!['+'] + d, max) == parse_unsigned(d, max),
        decimal_value(d.push(c)) == 10 * decimal_value(d) + (c as int - '0' as int),
        decimal_value(seq![c]) == c as int - '0' as int,
{
    assert(seq![c].drop_last() =~= Seq::<char>::empty());
    assert(decimal_value(Seq::<char>::empty()) == 0);
    assert(seq![c].last() == c);
    assert(decimal_value(seq![c]) == decimal_value(seq![c].drop_last()) * 10 + digit_value(c));
    let plus = seq!['+'] + d;
    assert(plus.subrange(1, plus.len() as int) =~= d);
    assert(d.push(c).drop_last() =~= d);
}

/// A numeric setting is the number its text reads as, within the type's
/// range; an unset or unreadable setting is the default.
pub proof fn lemma_numeric_setting_is_read_value(v: String, n: int, max: int, default: int)
    ensures
        parse_unsigned(v@, max) == Some(n) ==> numeric_setting(Some(v), max, default) == n,
        parse_unsigned(v@, max) is None ==> numeric_setting(Some(v), max, default) == default,
        numeric_setting(None, max, default) == default,
{
}

/// The value of an optional setting, or its default.
pub open spec fn setting_or(value: Option<String>, default: Seq<char>) -> Seq<char> {
    match value {
        Some(v) => v@,
        None => default,
    }
}

/// A numeric setting: the value when it reads as a number, else the default.
pub open spec fn numeric_setting(value: Option<String>, max: int, default: int) -> int {
    match value {
        Some(v) => match parse_unsigned(v@, max) {
            Some(n) => n,
            None => default,
        },
        None => default,
    }
}

pub open spec fn option_view(value: Option<String>) -> Option<Seq<char>> {
    match value {
        Some(v) => Some(v@),
        None => None,
    }
}

fn string_or(value: Option<String>, default: &str) -> (r: String)
    ensures
        r@ == setting_or(value, default@),
{
    match value {
        Some(v) => v,
        None => String::from_str(default),
    }
}

fn requested_url(env_url: Option<String>) -> (r: String)
    ensures
        r@ == requested_database_url(option_view(env_url)),
{
    proof {
        reveal_strlit("sqlite");
        reveal_strlit("sqlite://");
    }
    match env_url {
        Some(u) => {
            if starts_with(u.as_str(), "sqlite") {
                u
            } else {
                concat("sqlite://", u.as_str())
            }
        },
        None => String::from_str("sqlite://data/mcstats.db"),
    }
}

/// The URL the service connects to, from the URL asked for and the working directory.
pub fn resolve_database_url(url: String, current_dir: &Option<String>) -> (r: String)
    ensures
        r@ == resolved_database_url(url@, option_view(*current_dir)),
{
    proof {
        reveal_strlit("sqlite://");
    }
    if !starts_with(url.as_str(), "sqlite://") {
        return url;
    }
    let chars = chars_of(url.as_str());
    let path = string_of_range(&chars, 9, chars.len());
    let is_absolute = chars.len() > 9 && chars[9] == '/';
    let file = if is_absolute {
        path
    } else {
        match current_dir {
            Some(c) => join_path(c.as_str(), path.as_str()),
            None => path,
        }
    };
    concat("sqlite://", file.as_str())
}

impl Config {
    /// The configuration the environment values describe.
    pub fn from_environment(values: EnvironmentValues) -> (c: Config)
        ensures
            c.port@ == setting_or(values.port, "80"@),
            c.database_pool_size == numeric_setting(values.database_pool_size, u32::MAX as int, 30),
            c.database_concurrency_limit == numeric_setting(
                values.database_concurrency_limit,
                usize::MAX as int,
                2,
            ),
            c.database_url@ == resolved_database_url(
                requested_database_url(option_view(values.database_url)),
                option_view(values.current_dir),
            ),
            c.world_folder@ == setting_or(values.world_path, "data/world"@),
            c.usercache_path@ == "data/usercache.json"@,
    {
        let port = string_or(values.port, "80");
        let database_pool_size: u32 = match values.database_pool_size {
            Some(v) => match parse_unsigned_decimal(v.as_str(), u32::MAX as u64) {
                Some(n) => n as u32,
                None => 30,
            },
            None => 30,
        };
        let database_concurrency_limit: usize = match values.database_concurrency_limit {
            Some(v) => match parse_unsigned_decimal(v.as_str(), usize::MAX as u64) {
                Some(n) => n as usize,
                None => 2,
            },
            None => 2,
        };
        let requested = requested_url(values.database_url);
        let database_url = resolve_database_url(requested, &values.current_dir);
        let world_folder = string_or(values.world_path, "data/world");
        Config {
            database_url,
            database_pool_size,
            database_concurrency_limit,
            world_folder,
            usercache_path: String::from_str("data/usercache.json"),
            port,
        }
    }

    /// The folder that holds one statistics file per player.
    pub fn stats_folder(&self) -> (r: String)
        ensures
            r@ == join_relative(self.world_folder@, "stats"@),
    {
        join_path(self.world_folder.as_str(), "stats")
    }

    /// The database file to create before connecting, for an `sqlite://` URL.
    pub fn database_file(&self) -> (r: Option<String>)
        ensures
            match r {
                Some(f) => is_prefix_of("sqlite://"@, self.database_url@) && f@
                    == self.database_url@.subrange(9, self.database_url@.len() as int),
                None => !is_prefix_of("sqlite://"@, self.database_url@),
            },
    {
        proof {
            reveal_strlit("sqlite://");
        }
        if starts_with(self.database_url.as_str(), "sqlite://") {
            let chars = chars_of(self.database_url.as_str());
            Some(string_of_range(&chars, 9, chars.len()))
        } else {
            None
        }
    }

    /// The socket address the HTTP server listens on.
    pub fn listen_address(&self) -> (r: String)
        ensures
            r@ == "0.0.0.0:"@ + self.port@,
    {
        concat("0.0.0.0:", self.port.as_str())
    }
}

} // verus!
