//! Picking files out of a directory listing.

use vstd::prelude::*;
use vstd::string::*;
use crate::paths::{extension, has_extension};

verus! {

/// Those of the first `n` paths of `listing` whose extension is `file_ext`,
/// in the order of the listing.
pub open spec fn with_extension(listing: Seq<Seq<char>>, file_ext: Seq<char>, n: nat) -> Seq<
    Seq<char>,
>
    decreases n,
{
    if n == 0 {
        Seq::empty()
    } else {
        let before = with_extension(listing, file_ext, (n - 1) as nat);
        if extension(listing[n - 1]) == Some(file_ext) {
            before.push(listing[n - 1])
        } else {
            before
        }
    }
}

/// Picks from `listing`, the files found below a directory, those with the
/// extension `file_ext`. The order of the listing is kept.
pub fn glob_files(listing: &Vec<String>, file_ext: &str) -> (found: Vec<String>)
    ensures
        found.deep_view() == with_extension(listing.deep_view(), file_ext@, listing@.len()),
{
    let mut found: Vec<String> = Vec::new();
    let mut i: usize = 0;
    assert(found.deep_view() =~= Seq::empty());
    while i < listing.len()
        invariant
            i <= listing@.len(),
            found.deep_view() == with_extension(listing.deep_view(), file_ext@, i as nat),
        decreases listing@.len() - i,
    {
        proof {
            assert(listing.deep_view()[i as int] == listing@[i as int]@);
        }
        if has_extension(listing[i].as_str(), file_ext) {
            let ghost before = found.deep_view();
            found.push(listing[i].clone());
            assert(found.deep_view() =~= before.push(listing@[i as int]@));
        }
        i += 1;
    }
    found
}

} // verus!
