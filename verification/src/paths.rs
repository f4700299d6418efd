//! Paths for throw-away databases.

use vstd::prelude::*;
use vstd::string::*;
use crate::random::{is_alphanumeric_string, rand_string};

verus! {

/// The length of the random name of a database file.
pub const NAME_LEN: usize = 24;

/// The text of the path of the database `name` under `dir`.
pub open spec fn db_path_text(dir: Seq<char>, name: Seq<char>) -> Seq<char> {
    dir + seq!['/'] + name + seq!['.', 'd', 'b', '3']
}

/// A database path under `dir` whose name is twenty-four letters and digits.
pub open spec fn is_tmp_path(dir: Seq<char>, path: Seq<char>) -> bool {
    exists|name: Seq<char>|
        {
            &&& #[trigger] db_path_text(dir, name) == path
            &&& is_alphanumeric_string(name, NAME_LEN as nat)
        }
}

/// The path of the database `name` under `dir`: the directory, a slash, the
/// name and the ending `.db3`.
pub fn db_path(dir: &str, name: &str) -> (path: String)
    ensures
        path@ == db_path_text(dir@, name@),
{
    let mut path = String::from_str(dir);
    path.append("/");
    path.append(name);
    path.append(".db3");
    proof {
        reveal_strlit("/");
        reveal_strlit(".db3");
        assert("/"@ =~= seq!['/']);
        assert(".db3"@ =~= seq!['.', 'd', 'b', '3']);
    }
    path
}

/// A fresh database path under `dir`, with a random name.
pub fn tmp_path_under(dir: &str) -> (path: String)
    ensures
        is_tmp_path(dir@, path@),
{
    let name = rand_string::<NAME_LEN>();
    let path = db_path(dir, name.as_str());
    assert(db_path_text(dir@, name@) == path@);
    path
}

/// A fresh database path under the directory `test_db`.
pub fn tmp_path() -> (path: String)
    ensures
        is_tmp_path("test_db"@, path@),
{
    tmp_path_under("test_db")
}

} // verus!
