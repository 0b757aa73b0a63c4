//! Where subscription files live and how a new one is named.

use rand::Rng;
use vstd::prelude::*;

verus! {

/// The directory of the subscription files, relative to the home directory.
pub const SUBSCRIPTION_DIR: &'static str = ".config/tomoon/subs/";

/// The extension of a subscription file.
pub const FILE_EXTENSION: &'static str = ".yaml";

/// The number of random characters in the name of a new subscription file.
pub const STEM_LENGTH: usize = 5;

/// The time a fetch may take, in seconds.
pub const FETCH_TIMEOUT: u64 = 10;

/// An ASCII letter or digit.
pub open spec fn is_alphanumeric(c: char) -> bool {
    ('A' <= c && c <= 'Z') || ('a' <= c && c <= 'z') || ('0' <= c && c <= '9')
}

/// Every character is an ASCII letter or digit.
pub open spec fn all_alphanumeric(text: Seq<char>) -> bool {
    forall|i: int| 0 <= i < text.len() ==> is_alphanumeric(#[trigger] text[i])
}

/// The file name made of a stem and the extension.
pub open spec fn file_name_of(stem: Seq<char>) -> Seq<char> {
    stem + FILE_EXTENSION@
}

/// The shape of the name of a new subscription file: `STEM_LENGTH` letters or
/// digits, then the extension.
pub open spec fn is_generated_file_name(name: Seq<char>) -> bool {
    &&& name.len() >= STEM_LENGTH
    &&& all_alphanumeric(name.take(STEM_LENGTH as int))
    &&& name.skip(STEM_LENGTH as int) == FILE_EXTENSION@
}

/// The directory of the subscription files under the home directory `home`:
/// the home directory, a separator unless it is empty or ends in one, and the
/// relative directory.
pub open spec fn directory_of(home: Seq<char>) -> Seq<char> {
    if home.len() == 0 || home.last() == '/' {
        home + SUBSCRIPTION_DIR@
    } else {
        home.push('/') + SUBSCRIPTION_DIR@
    }
}

/// `path` names a new subscription file directly in `directory`.
pub open spec fn is_new_file_in(path: Seq<char>, directory: Seq<char>) -> bool {
    &&& path.len() >= directory.len()
    &&& path.take(directory.len() as int) == directory
    &&& is_generated_file_name(path.skip(directory.len() as int))
}

/// Trusted: `rand::thread_rng().sample_iter(&Alphanumeric)`, cut after `len`
/// items and collected into a string. Each item is drawn from the 62 ASCII
/// letters and digits, and the iterator never ends, so the string has `len`
/// characters of that set. Which ones is left open: two calls may differ.
/// The generator is seeded from the system on a thread's first call, and
/// panics there if the system gives no seed.
#[verifier::external_body]
fn random_alphanumeric(len: usize) -> (text: String)
    ensures
        text@.len() == len,
        all_alphanumeric(text@),
{
    rand::thread_rng().sample_iter(&rand::distributions::Alphanumeric).take(len).map(
        char::from,
    ).collect()
}

/// The file name with the given stem.
pub fn subscription_file_name(stem: String) -> (name: String)
    ensures
        name@ == file_name_of(stem@),
{
    stem.concat(FILE_EXTENSION)
}

/// The directory of the subscription files under the home directory `home`.
pub fn subscription_dir(home: &str) -> (directory: String)
    ensures
        directory@ == directory_of(home@),
{
    let len: usize = home.unicode_len();
    let mut directory = String::from_str(home);
    if len > 0 && home.get_char(len - 1) != '/' {
        proof {
            reveal_strlit("/");
        }
        directory.append("/");
        assert(directory@ =~= home@.push('/'));
    }
    directory.append(SUBSCRIPTION_DIR);
    directory
}

/// The path of the file `file_name` in `directory`.
pub fn file_path(directory: &str, file_name: &str) -> (path: String)
    ensures
        path@ == directory@ + file_name@,
{
    String::from_str(directory).concat(file_name)
}

/// A name for a new subscription file. Names are drawn at random: two calls
/// are unlikely to agree, and nothing keeps them from it.
pub fn new_subscription_file_name() -> (name: String)
    ensures
        is_generated_file_name(name@),
{
    let stem = random_alphanumeric(STEM_LENGTH);
    let name = subscription_file_name(stem);
    proof {
        assert(name@.take(STEM_LENGTH as int) =~= stem@);
        assert(name@.skip(STEM_LENGTH as int) =~= FILE_EXTENSION@);
    }
    name
}

} // verus!
