//! Keyboard layouts.

use crate::lists::{find_index, index_of, sort_unique, sorted_set};
use crate::text::{from_chars, lines, lines_of, rows, texts, to_chars, trim, trim_chars};
use vstd::prelude::*;

verus! {

/// The index of the layout `value` in `maps`, or `None` where it is not there.
pub fn find_keymap_index(maps: &[String], value: &str) -> (r: Option<usize>)
    ensures
        match r {
            Some(i) => index_of(texts(maps@), value@) == Some(i as int),
            None => index_of(texts(maps@), value@) is None,
        },
{
    find_index(maps, value)
}

/// The lines that are not blank, trimmed.
pub open spec fn named(listing: Seq<Seq<char>>) -> Seq<Seq<char>>
    decreases listing.len(),
{
    if listing.len() == 0 {
        Seq::empty()
    } else {
        named(listing.drop_last()) + (if trim(listing.last()).len() > 0 {
            seq![trim(listing.last())]
        } else {
            Seq::empty()
        })
    }
}

/// The layouts that a listing names: its lines, trimmed, in the order of
/// the dictionary and each once; the layout `us` where it names none.
pub open spec fn keymaps_of(output: Seq<char>) -> Seq<Seq<char>> {
    if sorted_set(named(lines(output))).len() == 0 {
        seq!["us"@]
    } else {
        sorted_set(named(lines(output)))
    }
}

/// The layouts that the listing `output` names.
pub fn parse_keymaps(output: &str) -> (out: Vec<String>)
    ensures
        texts(out@) == keymaps_of(output@),
{
    let listing = lines_of(&to_chars(output));
    let mut found: Vec<String> = Vec::new();
    let mut i: usize = 0;
    while i < listing.len()
        invariant
            i <= listing.len(),
            texts(found@) == named(rows(listing@).take(i as int)),
        decreases listing.len() - i,
    {
        proof {
            let next = rows(listing@).take(i + 1);
            assert(next.drop_last() =~= rows(listing@).take(i as int));
        }
        let name = trim_chars(&listing[i]);
        if name.len() > 0 {
            found.push(from_chars(&name));
        }
        i += 1;
    }
    assert(rows(listing@).take(listing.len() as int) =~= rows(listing@));
    let maps = sort_unique(found);
    if maps.len() == 0 {
        let mut fallback: Vec<String> = Vec::new();
        fallback.push("us".to_owned());
        fallback
    } else {
        maps
    }
}

} // verus!
