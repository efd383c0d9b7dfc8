//! Where the wallet of a user is kept.

use vstd::prelude::*;
use std::path::PathBuf;

verus! {

/// The directory that holds one wallet database for each wallet.
pub const WALLET_DB_PATH: &'static str = "./wallet_database";

/// `std::path::PathBuf`, of which nothing is known here but what the two
/// functions below state.
#[verifier::external_type_specification]
#[verifier::external_body]
pub struct ExPathBuf(PathBuf);

/// The text of a path that was made of strings.
pub uninterp spec fn path_text(path: PathBuf) -> Seq<char>;

/// Whether `separator` parts the components of a path on some platform.
pub open spec fn is_separator(separator: char) -> bool {
    separator == '/' || separator == '\\'
}

/// Whether a platform may read `component` as a path that starts anew, so that
/// it takes the place of the directory it is joined to: it begins with a
/// separator, or its second character is the colon of a drive.
pub open spec fn may_start_anew(component: Seq<char>) -> bool {
    ||| component.len() >= 1 && is_separator(component[0])
    ||| component.len() >= 2 && component[1] == ':'
}

/// Whether `path` is `directory` extended by `component`: the two with one
/// separator between them, or, where the component may start anew, the component
/// alone.
pub open spec fn extends(path: Seq<char>, directory: Seq<char>, component: Seq<char>) -> bool {
    ||| exists|separator: char|
        is_separator(separator) && path == directory + seq![separator] + component
    ||| may_start_anew(component) && path == component
}

/// The path whose text is `text`.
///
/// This is `PathBuf::from`, which copies the string into a new path.
#[verifier::external_body]
fn path_from(text: &str) -> (path: PathBuf)
    ensures
        path_text(path) == text@,
{
    PathBuf::from(text)
}

/// Extends the wallet directory by the name of a wallet.
///
/// This is `PathBuf::push` on the path `./wallet_database`, which is relative
/// and ends in no separator. The standard library then joins the two with the
/// separator of the platform, unless it reads `wallet_id` as absolute, or on
/// Windows as rooted or as starting with a drive or another prefix: then
/// `wallet_id` takes the place of the whole path. A path that is read so begins
/// with a separator or has the colon of a drive as its second character.
#[verifier::external_body]
fn push_wallet_id(path: &mut PathBuf, wallet_id: &str)
    requires
        path_text(*old(path)) == WALLET_DB_PATH@,
    ensures
        extends(path_text(*final(path)), WALLET_DB_PATH@, wallet_id@),
{
    path.push(wallet_id)
}

/// The path of the database of the wallet `wallet_id`: the wallet directory
/// extended by the name of the wallet. For a name that begins with no separator
/// and has no colon in second place, that is the directory, a separator and the
/// name.
pub fn get_wallet_path(wallet_id: &str) -> (path: PathBuf)
    ensures
        extends(path_text(path), WALLET_DB_PATH@, wallet_id@),
{
    let mut path = path_from(WALLET_DB_PATH);
    push_wallet_id(&mut path, wallet_id);
    path
}

} // verus!
