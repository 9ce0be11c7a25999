//! Time zones: looking one up in the list of known zones, and reading one out
//! of the answer of a location service.

use crate::lists::{find_index, holds, index_of};
use crate::model::opt_text;
use crate::text::{
    append_str, find, find_chars, from_chars, lemma_find_contains, position, position_of, slice,
    str_eq, texts, to_chars, trim, trim_start, trim_start_chars,
};
use vstd::prelude::*;

verus! {

/// The index of the zone `value` in `zones`, or `None` where it is not there.
pub fn find_timezone_index(zones: &[String], value: &str) -> (r: Option<usize>)
    ensures
        match r {
            Some(i) => index_of(texts(zones@), value@) == Some(i as int),
            None => index_of(texts(zones@), value@) is None,
        },
{
    find_index(zones, value)
}

/// Whether `tz` is one of the names of universal time.
pub open spec fn is_utc_name(tz: Seq<char>) -> bool {
    tz == "UTC"@ || tz == "Etc/UTC"@ || tz == "Etc/GMT"@ || tz == "GMT"@
}

/// Whether `tz` is one of the names of universal time.
pub fn is_utc_variant(tz: &str) -> (r: bool)
    ensures
        r == is_utc_name(tz@),
{
    str_eq(tz, "UTC") || str_eq(tz, "Etc/UTC") || str_eq(tz, "Etc/GMT") || str_eq(tz, "GMT")
}

/// The first of `candidates` that `zones` holds.
pub open spec fn first_known(zones: Seq<Seq<char>>, candidates: Seq<Seq<char>>) -> Option<
    Seq<char>,
>
    decreases candidates.len(),
{
    if candidates.len() == 0 {
        None
    } else if zones.contains(candidates[0]) {
        Some(candidates[0])
    } else {
        first_known(zones, candidates.skip(1))
    }
}

/// The names that are tried for `tz`, in order: for a name of universal
/// time its four names, and else the name itself and then three names of
/// universal time.
pub open spec fn candidates_for(tz: Seq<char>) -> Seq<Seq<char>> {
    if is_utc_name(tz) {
        seq!["UTC"@, "Etc/UTC"@, "Etc/GMT"@, "GMT"@]
    } else {
        seq![tz, "Etc/UTC"@, "UTC"@, "Etc/GMT"@]
    }
}

/// The known zone that stands for `tz`: `tz` itself where it is known, and
/// else the first known of its candidates.
pub open spec fn normalized(zones: Seq<Seq<char>>, tz: Seq<char>) -> Option<Seq<char>> {
    if zones.contains(tz) {
        Some(tz)
    } else {
        first_known(zones, candidates_for(tz))
    }
}

/// The known zone that stands for `tz`.
pub fn normalize_timezone(zones: &[String], tz: &str) -> (r: Option<String>)
    ensures
        opt_text(r) == normalized(texts(zones@), tz@),
{
    if holds(zones, tz) {
        return Some(tz.to_owned());
    }
    let candidates: [&str; 4] = if is_utc_variant(tz) {
        ["UTC", "Etc/UTC", "Etc/GMT", "GMT"]
    } else {
        [tz, "Etc/UTC", "UTC", "Etc/GMT"]
    };
    let ghost all = candidates_for(tz@);
    assert(all =~= Seq::new(4, |i: int| candidates@[i]@));
    let mut i: usize = 0;
    assert(all.skip(0) =~= all);
    while i < 4
        invariant
            i <= 4,
            all == Seq::new(4, |i: int| candidates@[i]@),
            all == candidates_for(tz@),
            !texts(zones@).contains(tz@),
            first_known(texts(zones@), all.skip(i as int)) == first_known(texts(zones@), all),
        decreases 4 - i,
    {
        proof {
            let rest = all.skip(i as int);
            assert(rest.skip(1) =~= all.skip(i + 1));
        }
        if holds(zones, candidates[i]) {
            return Some(candidates[i].to_owned());
        }
        i += 1;
    }
    None
}

/// The text of the first string field named `key` in a JSON text: what
/// stands between the first two quotation marks after the colon that follows
/// the quoted key. The text is taken as it is written, escapes included.
pub open spec fn json_field(body: Seq<char>, key: Seq<char>) -> Option<Seq<char>> {
    let needle = seq!['"'] + key + seq!['"'];
    match find(body, needle) {
        None => None,
        Some(start) => {
            let after_key = body.skip(start + needle.len());
            let colon = position(after_key, ':');
            if colon >= after_key.len() {
                None
            } else {
                let after_colon = trim_start(after_key.skip(colon + 1));
                let quote = position(after_colon, '"');
                if quote >= after_colon.len() {
                    None
                } else {
                    let rest = after_colon.skip(quote + 1);
                    let end = position(rest, '"');
                    if end >= rest.len() {
                        None
                    } else {
                        Some(rest.take(end))
                    }
                }
            }
        },
    }
}

/// The text of the first string field named `key` in the JSON text `body`.
pub fn json_string_field(body: &str, key: &str) -> (r: Option<String>)
    ensures
        opt_text(r) == json_field(body@, key@),
{
    let text = to_chars(body);
    let mut needle: Vec<char> = Vec::new();
    needle.push('"');
    append_str(&mut needle, key);
    needle.push('"');
    assert(needle@ =~= seq!['"'] + key@ + seq!['"']);
    let start = match find_chars(&text, &needle) {
        Some(start) => start,
        None => {
            return None;
        },
    };
    proof {
        lemma_find_contains(text@, needle@, 0);
    }
    let after_key = slice(&text, start + needle.len(), text.len());
    assert(after_key@ =~= text@.skip(start + needle.len()));
    let colon = position_of(&after_key, ':');
    if colon >= after_key.len() {
        return None;
    }
    let tail = slice(&after_key, colon + 1, after_key.len());
    assert(tail@ =~= after_key@.skip(colon + 1));
    let after_colon = trim_start_chars(&tail);
    let quote = position_of(&after_colon, '"');
    if quote >= after_colon.len() {
        return None;
    }
    let rest = slice(&after_colon, quote + 1, after_colon.len());
    let end = position_of(&rest, '"');
    if end >= rest.len() {
        return None;
    }
    let value = slice(&rest, 0, end);
    assert(value@ =~= rest@.take(end as int));
    Some(from_chars(&value))
}

/// The zone that a line of the zone table names: its third field, fields
/// separated by tabs; none for a blank line, a remark, or a line with fewer fields.
pub open spec fn zone_of_line(line: Seq<char>) -> Option<Seq<char>> {
    let l = trim(line);
    let fields = crate::text::split(l, '\t');
    if l.len() == 0 || l[0] == '#' || fields.len() < 3 {
        None
    } else {
        Some(fields[2])
    }
}

/// The zones that the lines of a zone table name, in order.
pub open spec fn zones_named(listing: Seq<Seq<char>>) -> Seq<Seq<char>>
    decreases listing.len(),
{
    if listing.len() == 0 {
        Seq::empty()
    } else {
        zones_named(listing.drop_last()) + (match zone_of_line(listing.last()) {
            Some(z) => seq![z],
            None => Seq::empty(),
        })
    }
}

/// Whether a list holds a name of universal time.
pub open spec fn has_utc(zones: Seq<Seq<char>>) -> bool {
    zones.contains("UTC"@) || zones.contains("Etc/UTC"@) || zones.contains("Etc/GMT"@)
        || zones.contains("GMT"@)
}

/// The zones of a zone table: those that it names, in the order of the
/// dictionary and each once, with `UTC` among them where the table names no
/// universal time.
pub open spec fn zones_of(content: Seq<char>) -> Seq<Seq<char>> {
    let zones = crate::lists::sorted_set(zones_named(crate::text::lines(content)));
    if has_utc(zones) {
        zones
    } else {
        crate::lists::with_element(zones, "UTC"@)
    }
}

/// The zones of the zone table `content`.
pub fn parse_zone_table(content: &str) -> (out: Vec<String>)
    ensures
        texts(out@) == zones_of(content@),
{
    let listing = crate::text::lines_of(&to_chars(content));
    let mut found: Vec<String> = Vec::new();
    let mut i: usize = 0;
    while i < listing.len()
        invariant
            i <= listing.len(),
            texts(found@) == zones_named(crate::text::rows(listing@).take(i as int)),
        decreases listing.len() - i,
    {
        proof {
            let next = crate::text::rows(listing@).take(i + 1);
            assert(next.drop_last() =~= crate::text::rows(listing@).take(i as int));
        }
        let line = crate::text::trim_chars(&listing[i]);
        let mut named = false;
        if line.len() > 0 && line[0] != '#' {
            let fields = crate::text::split_chars(&line, '\t');
            if fields.len() >= 3 {
                assert(crate::text::rows(fields@)[2] == fields@[2]@);
                found.push(from_chars(&fields[2]));
                named = true;
            }
        }
        i += 1;
    }
    assert(crate::text::rows(listing@).take(listing.len() as int) =~= crate::text::rows(
        listing@,
    ));
    let mut zones = crate::lists::sort_unique(found);
    if !(holds(zones.as_slice(), "UTC") || holds(zones.as_slice(), "Etc/UTC") || holds(
        zones.as_slice(),
        "Etc/GMT",
    ) || holds(zones.as_slice(), "GMT")) {
        crate::lists::insert_sorted(&mut zones, "UTC".to_owned());
    }
    zones
}

/// Where the zone files lie.
pub const ZONEINFO_DIR: &'static str = "/usr/share/zoneinfo/";

/// The name of the zone whose file lies at `path`: what follows the
/// directory of the zone files where the path begins with it, and else what
/// stands between its first mention in the path and the next, or the end.
pub open spec fn zone_in_path(path: Seq<char>) -> Option<Seq<char>> {
    match find(path, ZONEINFO_DIR@) {
        None => None,
        Some(i) => {
            let rest = path.skip(i + ZONEINFO_DIR@.len());
            if i == 0 {
                Some(rest)
            } else {
                match find(rest, ZONEINFO_DIR@) {
                    Some(j) => Some(rest.take(j)),
                    None => Some(rest),
                }
            }
        },
    }
}

/// The name of the zone whose file lies at `path`.
pub fn zone_of_path(path: &str) -> (r: Option<String>)
    ensures
        opt_text(r) == zone_in_path(path@),
{
    let text = to_chars(path);
    let dir = to_chars(ZONEINFO_DIR);
    let i = match find_chars(&text, &dir) {
        Some(i) => i,
        None => {
            return None;
        },
    };
    proof {
        lemma_find_contains(text@, dir@, 0);
    }
    assert(i + dir.len() <= text.len());
    let rest = slice(&text, i + dir.len(), text.len());
    if i == 0 {
        return Some(from_chars(&rest));
    }
    match find_chars(&rest, &dir) {
        Some(j) => {
            proof {
                lemma_find_contains(rest@, dir@, 0);
            }
            let name = slice(&rest, 0, j);
            Some(from_chars(&name))
        },
        None => Some(from_chars(&rest)),
    }
}

/// The zone that the machine's own settings give: the known zone that
/// stands for `name`, unless that is universal time, which says nothing of
/// where the machine is.
pub fn local_zone(zones: &[String], name: &str) -> (r: Option<String>)
    ensures
        opt_text(r) == (match normalized(texts(zones@), name@) {
            Some(z) => if is_utc_name(z) {
                None
            } else {
                Some(z)
            },
            None => None,
        }),
{
    match normalize_timezone(zones, name) {
        Some(value) => {
            if is_utc_variant(value.as_str()) {
                None
            } else {
                Some(value)
            }
        },
        None => None,
    }
}

} // verus!
