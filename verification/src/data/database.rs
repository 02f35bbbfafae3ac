//! What a database shows of itself.

use vstd::prelude::*;
use vstd::string::*;

verus! {

/// The mark of a database that is open for reading only.
pub open spec fn mode_text(read_only: bool) -> Seq<char> {
    if read_only {
        "[read-only] "@
    } else {
        Seq::empty()
    }
}

/// The text of the database at `path`.
pub open spec fn database_text(read_only: bool, path: Seq<char>) -> Seq<char> {
    "Database("@ + mode_text(read_only) + path + ")"@
}

/// How the database at `path` displays itself: its path, marked if the
/// database is open for reading only.
pub fn database_label(read_only: bool, path: &str) -> (text: String)
    ensures
        text@ == database_text(read_only, path@),
{
    let mut text = String::from_str("Database(");
    if read_only {
        text.append("[read-only] ");
    }
    text.append(path);
    text.append(")");
    assert(text@ =~= database_text(read_only, path@));
    text
}

} // verus!
