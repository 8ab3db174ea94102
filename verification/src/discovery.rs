//! The naming convention by which endpoints are found: an entry of the
//! directory is an endpoint if its path, as text, begins with the directory, a
//! slash and the prefix token.

use vstd::prelude::*;
use vstd::string::*;

verus! {

/// The text every endpoint's path begins with.
pub open spec fn prefix_text(directory: Seq<char>, token: Seq<char>) -> Seq<char> {
    directory + seq!['/'] + token
}

/// Whether a directory entry names an endpoint. `None` stands for a path that
/// is not text, which never does.
pub open spec fn is_endpoint(path: Option<Seq<char>>, prefix: Seq<char>) -> bool {
    match path {
        Some(text) => prefix.is_prefix_of(text),
        None => false,
    }
}

/// The endpoints among `entries`, in the order of the listing.
pub open spec fn endpoints(entries: Seq<Option<Seq<char>>>, prefix: Seq<char>) -> Seq<Seq<char>>
    decreases entries.len(),
{
    if entries.len() == 0 {
        seq![]
    } else if is_endpoint(entries.last(), prefix) {
        endpoints(entries.drop_last(), prefix).push(entries.last().unwrap())
    } else {
        endpoints(entries.drop_last(), prefix)
    }
}

/// The view of an entry: its text, if it has one.
pub open spec fn entry_text(entry: Option<String>) -> Option<Seq<char>> {
    match entry {
        Some(path) => Some(path@),
        None => None,
    }
}

/// The views of a listing's entries.
pub open spec fn entry_texts(entries: Seq<Option<String>>) -> Seq<Option<Seq<char>>> {
    Seq::new(entries.len(), |i: int| entry_text(entries[i]))
}

/// The views of a list of paths.
pub open spec fn path_texts(paths: Seq<String>) -> Seq<Seq<char>> {
    Seq::new(paths.len(), |i: int| paths[i]@)
}

/// Matching is exact on the whole prefix: a path names an endpoint if and only
/// if it is the prefix followed by some rest.
pub proof fn endpoint_is_prefix_and_rest(path: Seq<char>, prefix: Seq<char>)
    ensures
        is_endpoint(Some(path), prefix) <==> exists|rest: Seq<char>| path == prefix + rest,
{
    if is_endpoint(Some(path), prefix) {
        let rest = path.skip(prefix.len() as int);
        assert(path =~= prefix + rest);
    }
    if exists|rest: Seq<char>| path == prefix + rest {
        let rest = choose|rest: Seq<char>| path == prefix + rest;
        assert(path.subrange(0, prefix.len() as int) =~= prefix);
    }
}

/// Every path that `discover` picks begins with the prefix, and a listing
/// without a matching entry gives no endpoint.
pub proof fn endpoints_begin_with_prefix(entries: Seq<Option<Seq<char>>>, prefix: Seq<char>)
    ensures
        forall|i: int|
            0 <= i < endpoints(entries, prefix).len() ==> prefix.is_prefix_of(
                #[trigger] endpoints(entries, prefix)[i],
            ),
        (forall|i: int| 0 <= i < entries.len() ==> !is_endpoint(#[trigger] entries[i], prefix))
            ==> endpoints(entries, prefix).len() == 0,
    decreases entries.len(),
{
    if entries.len() > 0 {
        endpoints_begin_with_prefix(entries.drop_last(), prefix);
        let found = endpoints(entries, prefix);
        let before = endpoints(entries.drop_last(), prefix);
        assert forall|i: int| 0 <= i < found.len() implies prefix.is_prefix_of(
            #[trigger] found[i],
        ) by {
            if i < before.len() {
                assert(found[i] == before[i]);
            } else {
                assert(found[i] == entries.last().unwrap());
            }
        }
    }
}

/// Calls `str::starts_with` with a string slice as the pattern.
///
/// Trusted: the answer is `true` exactly when `text` begins with `prefix`,
/// character for character.
#[verifier::external_body]
fn starts_with(text: &str, prefix: &str) -> (found: bool)
    ensures
        found == prefix@.is_prefix_of(text@),
{
    text.starts_with(prefix)
}

/// Joins the directory and the prefix token into the text that an endpoint's
/// path must begin with.
pub fn match_prefix(directory: &str, token: &str) -> (prefix: String)
    ensures
        prefix@ == prefix_text(directory@, token@),
{
    let mut prefix = String::from_str(directory);
    prefix.append("/");
    prefix.append(token);
    proof {
        reveal_strlit("/");
        assert("/"@ =~= seq!['/']);
    }
    prefix
}

/// The view of a path that may not be text.
pub open spec fn path_text(path: Option<&str>) -> Option<Seq<char>> {
    match path {
        Some(text) => Some(text@),
        None => None,
    }
}

/// Tells whether a directory entry names an endpoint: whether its path is text
/// and begins with `prefix`.
pub fn names_endpoint(path: Option<&str>, prefix: &str) -> (found: bool)
    ensures
        found == is_endpoint(path_text(path), prefix@),
{
    match path {
        Some(text) => starts_with(text, prefix),
        None => false,
    }
}

/// Picks the endpoints out of a snapshot of the directory. Entries that do not
/// match, and entries whose path is not text, are passed over.
pub fn discover(entries: &Vec<Option<String>>, prefix: &str) -> (found: Vec<String>)
    ensures
        path_texts(found@) == endpoints(entry_texts(entries@), prefix@),
{
    let mut found: Vec<String> = Vec::new();
    let mut i: usize = 0;
    proof {
        assert(entry_texts(entries@).take(0) =~= Seq::empty());
        assert(path_texts(found@) =~= Seq::empty());
    }
    while i < entries.len()
        invariant
            i <= entries.len(),
            path_texts(found@) == endpoints(entry_texts(entries@).take(i as int), prefix@),
        decreases entries.len() - i,
    {
        let ghost before = entry_texts(entries@).take(i as int);
        let ghost after = entry_texts(entries@).take(i + 1);
        let ghost paths = path_texts(found@);
        proof {
            assert(after.drop_last() =~= before);
            assert(after.last() == entry_text(entries@[i as int]));
        }
        match &entries[i] {
            Some(path) => {
                if starts_with(path.as_str(), prefix) {
                    found.push(path.clone());
                    proof {
                        assert(path_texts(found@) =~= paths.push(path@));
                    }
                }
            },
            None => {},
        }
        i += 1;
    }
    proof {
        assert(entry_texts(entries@).take(i as int) =~= entry_texts(entries@));
    }
    found
}

} // verus!
