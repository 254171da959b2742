//! Where the records are kept: the storage directory and the name of the
//! file of each record.

use crate::text::joined;
use std::path::Path;
use vstd::prelude::*;
use vstd::string::*;

verus! {

/// The name of the application's directory under the user's data directory.
pub open spec fn app_directory_name() -> Seq<char> {
    "dnd-beyond-desktop"@
}

/// The name of the directory of the records under the application's.
pub open spec fn records_directory_name() -> Seq<char> {
    "characters"@
}

/// The name of the file that holds the record of `id`.
pub open spec fn record_name(id: Seq<char>) -> Seq<char> {
    id + ".json"@
}

/// Whether a file of this name is taken for a record file: the name ends in
/// `.json` and has at least one character before that.
pub open spec fn is_record_name(name: Seq<char>) -> bool {
    name.len() > 5 && name.subrange(name.len() - 5, name.len() as int) == ".json"@
}

/// The name of the file that holds the record of `id`.
pub fn record_file_name(id: &str) -> (r: String)
    ensures
        r@ == record_name(id@),
{
    joined(id, ".json")
}

/// Whether a file of this name is taken for a record file.
pub fn is_record_file(name: &str) -> (r: bool)
    ensures
        r == is_record_name(name@),
{
    proof {
        reveal_strlit(".json");
    }
    let n = name.unicode_len();
    if n <= 5 {
        return false;
    }
    let r = name.get_char(n - 5) == '.' && name.get_char(n - 4) == 'j' && name.get_char(n - 3)
        == 's' && name.get_char(n - 2) == 'o' && name.get_char(n - 1) == 'n';
    proof {
        let tail = name@.subrange(n - 5, n as int);
        if r {
            assert(tail =~= ".json"@);
        } else {
            assert(tail[0] == name@[n - 5]);
            assert(tail[1] == name@[n - 4]);
            assert(tail[2] == name@[n - 3]);
            assert(tail[3] == name@[n - 2]);
            assert(tail[4] == name@[n - 1]);
        }
    }
    r
}

/// The file of a record is taken for a record file exactly where the record's
/// `id` is not empty.
pub proof fn lemma_record_name_is_record(id: Seq<char>)
    ensures
        is_record_name(record_name(id)) <==> id.len() > 0,
{
    reveal_strlit(".json");
    let name = record_name(id);
    assert(".json"@.len() == 5);
    if id.len() > 0 {
        assert(name.subrange(name.len() - 5, name.len() as int) =~= ".json"@);
    }
}

/// Two records have one file exactly where they have one `id`.
pub proof fn lemma_record_name_injective(a: Seq<char>, b: Seq<char>)
    ensures
        record_name(a) == record_name(b) <==> a == b,
{
    if record_name(a) == record_name(b) {
        assert(record_name(a).len() == a.len() + ".json"@.len());
        assert(record_name(b).len() == b.len() + ".json"@.len());
        assert(a =~= record_name(a).take(a.len() as int));
        assert(b =~= record_name(b).take(b.len() as int));
    }
}

/// The path that `std::path::Path::join` gives for `name` under `base`.
pub uninterp spec fn joined_path(base: Seq<char>, name: Seq<char>) -> Seq<char>;

/// Calls `std::path::Path::join`, which adjoins `name` to `base` as the
/// platform writes paths. The claim: the result depends on the two texts
/// alone. Both are UTF-8, so the path that comes out is too, and its text is
/// exact.
#[verifier::external_body]
fn join_path(base: &str, name: &str) -> (r: String)
    ensures
        r@ == joined_path(base@, name@),
{
    Path::new(base).join(name).to_string_lossy().into_owned()
}

/// Calls `dirs::data_dir`, which looks the user's data directory up in the
/// environment. Nothing is claimed of the result: it may be any path, or
/// none. A path that is not UTF-8 is given as none.
#[verifier::external_body]
fn platform_data_dir() -> Option<String> {
    dirs::data_dir().and_then(|path| path.into_os_string().into_string().ok())
}

/// The storage directory under the data directory `base`: the directory of
/// the records in the directory of the application.
pub open spec fn storage_dir(base: Seq<char>) -> Seq<char> {
    joined_path(joined_path(base, app_directory_name()), records_directory_name())
}

/// The storage directory under the data directory `base`.
pub fn characters_dir_under(base: &str) -> (r: String)
    ensures
        r@ == storage_dir(base@),
{
    let app = join_path(base, "dnd-beyond-desktop");
    join_path(app.as_str(), "characters")
}

/// The storage directory, from what the platform gave as the user's data
/// directory: the storage directory under it, and none where it gave none.
pub fn characters_dir_from(data_dir: Option<String>) -> (r: Option<String>)
    ensures
        match data_dir {
            Some(base) => r matches Some(dir) && dir@ == storage_dir(base@),
            None => r is None,
        },
{
    match data_dir {
        Some(base) => Some(characters_dir_under(base.as_str())),
        None => None,
    }
}

/// The storage directory of the user, or `None` where the platform names no
/// data directory for the user. Which of the two it is lies with the
/// platform; [`characters_dir_from`] says what is returned for each.
pub fn get_characters_dir() -> (r: Option<String>)
    ensures
        r matches Some(dir) ==> exists|base: Seq<char>| dir@ == storage_dir(base),
{
    let data_dir = platform_data_dir();
    let ghost given = data_dir;
    let r = characters_dir_from(data_dir);
    proof {
        if r is Some {
            assert(r->0@ == storage_dir(given->0@));
        }
    }
    r
}

/// The path of the file that holds the record of `id` in the directory `dir`.
pub fn record_path(dir: &str, id: &str) -> (r: String)
    ensures
        r@ == joined_path(dir@, record_name(id@)),
{
    let name = record_file_name(id);
    join_path(dir, name.as_str())
}

} // verus!
