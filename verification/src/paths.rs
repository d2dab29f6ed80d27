//! File names of the statistics folder: extensions, stems and the player
//! each file belongs to.

use vstd::prelude::*;
use crate::text::{chars_of, has_char, is_last_position_of, last_position_of, str_equal, string_of_range};
use crate::player_id::{parse_uuid, uuid_parse_str, hyphenated};

verus! {

/// The position of the last `.` in a file name, if there is one.
pub open spec fn last_dot(name: Seq<char>) -> int {
    choose|k: int| is_last_position_of(name, '.', k)
}

/// A file name has an extension when it holds a `.` other than a leading one.
pub open spec fn has_extension(name: Seq<char>) -> bool {
    has_char(name, '.') && last_dot(name) != 0
}

/// The extension of a file name: the text after its last `.`; a name
/// without a `.`, or whose only `.` is its first character, has none.
pub open spec fn spec_extension(name: Seq<char>) -> Option<Seq<char>> {
    if has_extension(name) {
        Some(name.subrange(last_dot(name) + 1, name.len() as int))
    } else {
        None
    }
}

/// The stem of a file name: the text before its last `.`, or the whole
/// name when it has no extension.
pub open spec fn spec_stem(name: Seq<char>) -> Seq<char> {
    if has_extension(name) {
        name.subrange(0, last_dot(name))
    } else {
        name
    }
}

/// Why no player could be read from a statistics file's name.
#[derive(Clone, Copy, Debug, PartialEq, Eq, Structural)]
pub enum FileNameError {
    /// The path has no file name.
    InvalidFileName,
    /// The stem of the file name is not a UUID.
    InvalidUuid,
}

/// A file named after a player, a non-empty stem followed by `.json`, is a
/// statistics file whose stem is that name.
pub proof fn lemma_json_file_name(stem: Seq<char>)
    requires
        stem.len() > 0,
    ensures
        spec_extension(stem + ".json"@) == Some("json"@),
        spec_stem(stem + ".json"@) == stem,
        spec_is_stats_file(stem + ".json"@),
{
    reveal_strlit(".json");
    reveal_strlit("json");
    let name = stem + ".json"@;
    let k = stem.len() as int;
    assert(name[k] == '.');
    assert(is_last_position_of(name, '.', k));
    assert(has_char(name, '.'));
    let d = last_dot(name);
    assert(is_last_position_of(name, '.', d));
    assert(d == k) by {
        if d < k {
            assert(name[k] != '.');
        } else if d > k {
            assert(name[d] != '.');
        }
    }
    assert(name.subrange(k + 1, name.len() as int) =~= "json"@);
    assert(name.subrange(0, k) =~= stem);
}

/// Position of the `.` that starts the extension, if the name has one.
fn extension_dot(v: &Vec<char>) -> (r: Option<usize>)
    ensures
        match r {
            Some(k) => has_extension(v@) && k == last_dot(v@) && k < v@.len(),
            None => !has_extension(v@),
        },
{
    match last_position_of(v, '.') {
        Some(k) => {
            assert(is_last_position_of(v@, '.', k as int));
            let ghost d = last_dot(v@);
            assert(is_last_position_of(v@, '.', d));
            assert(d == k as int) by {
                if d < k {
                    assert(v@[k as int] != '.');
                } else if d > k {
                    assert(v@[d] != '.');
                }
            }
            if k == 0 {
                None
            } else {
                Some(k)
            }
        },
        None => None,
    }
}

/// The extension of a file name.
pub fn file_extension(name: &str) -> (r: Option<String>)
    ensures
        match r {
            Some(e) => spec_extension(name@) == Some(e@),
            None => spec_extension(name@) is None,
        },
{
    let v = chars_of(name);
    match extension_dot(&v) {
        Some(k) => Some(string_of_range(&v, k + 1, v.len())),
        None => None,
    }
}

/// The stem of a file name.
pub fn file_stem(name: &str) -> (r: String)
    ensures
        r@ == spec_stem(name@),
{
    let v = chars_of(name);
    match extension_dot(&v) {
        Some(k) => string_of_range(&v, 0, k),
        None => string_of_range(&v, 0, v.len()),
    }
}

/// A file is a statistics file when its extension is `json`.
pub open spec fn spec_is_stats_file(name: Seq<char>) -> bool {
    spec_extension(name) == Some("json"@)
}

/// Whether the file with this name is a statistics file.
pub fn is_stats_file(name: &str) -> (r: bool)
    ensures
        r == spec_is_stats_file(name@),
{
    match file_extension(name) {
        Some(e) => str_equal(e.as_str(), "json"),
        None => false,
    }
}

/// The player a statistics file belongs to, from the outcome of reading
/// the file's stem as a UUID.
pub fn player_uuid_from_parsed(parsed: Option<u128>) -> (r: Result<u128, FileNameError>)
    ensures
        match parsed {
            Some(v) => r == Ok::<u128, FileNameError>(v),
            None => r == Err::<u128, FileNameError>(FileNameError::InvalidUuid),
        },
{
    match parsed {
        Some(v) => Ok(v),
        None => Err(FileNameError::InvalidUuid),
    }
}

/// The player a statistics file belongs to: its file's stem read as a UUID.
pub open spec fn spec_player_of_file(file_name: Option<Seq<char>>) -> Result<u128, FileNameError> {
    match file_name {
        None => Err(FileNameError::InvalidFileName),
        Some(name) => match uuid_parse_str(spec_stem(name)) {
            Some(v) => Ok(v),
            None => Err(FileNameError::InvalidUuid),
        },
    }
}

/// The player a statistics file belongs to; `None` stands for a path
/// without a file name. A file named after a player's hyphenated UUID
/// belongs to that player.
pub fn extract_uuid(file_name: Option<&str>) -> (r: Result<u128, FileNameError>)
    ensures
        r == spec_player_of_file(
            match file_name {
                Some(n) => Some(n@),
                None => None,
            },
        ),
        forall|v: u128|
            file_name matches Some(n) && spec_stem(n@) == hyphenated(v) ==> r == Ok::<
                u128,
                FileNameError,
            >(v),
{
    match file_name {
        None => Err(FileNameError::InvalidFileName),
        Some(name) => {
            let stem = file_stem(name);
            player_uuid_from_parsed(parse_uuid(stem.as_str()))
        },
    }
}

} // verus!
