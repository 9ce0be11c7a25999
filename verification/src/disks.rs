//! Disks: how a disk and its partitions are named, and how the listing of
//! block devices is read.

use crate::text::{
    append, append_str, decimal, find, find_chars, from_chars, is_digit, lemma_find_contains,
    lemma_position_bounds, lemma_trim_start_len, lines, lines_of, position, position_of,
    push_decimal, rows, same_str, slice, to_chars, trim, trim_chars, trim_start,
    trim_start_chars,
};
use vstd::prelude::*;

verus! {

/// A disk as the listing of block devices shows it.
#[derive(Clone, Debug, PartialEq, Eq)]
pub struct DiskInfo {
    /// The kernel's name of the device, such as `sda` or `nvme0n1`.
    pub name: String,
    /// Its size, as the listing writes it.
    pub size: String,
    /// Its model, which may be empty.
    pub model: String,
}

/// What a `DiskInfo` holds, as plain text.
pub struct DiskView {
    pub name: Seq<char>,
    pub size: Seq<char>,
    pub model: Seq<char>,
}

impl View for DiskInfo {
    type V = DiskView;

    open spec fn view(&self) -> DiskView {
        DiskView { name: self.name@, size: self.size@, model: self.model@ }
    }
}

impl DiskView {
    /// The path of the device.
    pub open spec fn device_path(self) -> Seq<char> {
        "/dev/"@ + self.name
    }

    /// Whether partition numbers are set off with a `p`: so where the name
    /// ends in a digit.
    pub open spec fn needs_p(self) -> bool {
        self.name.len() > 0 && is_digit(self.name.last())
    }

    /// The path of the partition with the given number.
    pub open spec fn partition_path(self, index: u8) -> Seq<char> {
        if self.needs_p() {
            "/dev/"@ + self.name + "p"@ + decimal(index as nat)
        } else {
            "/dev/"@ + self.name + decimal(index as nat)
        }
    }

    /// The text under which the disk is offered: name, size and, where
    /// known, model.
    pub open spec fn label(self) -> Seq<char> {
        if self.model.len() == 0 {
            self.name + " ("@ + self.size + ")"@
        } else {
            self.name + " ("@ + self.size + ") "@ + self.model
        }
    }
}

impl DiskInfo {
    /// The path of the device.
    pub fn device_path(&self) -> (out: String)
        ensures
            out@ == self@.device_path(),
    {
        let mut out = to_chars("/dev/");
        append_str(&mut out, self.name.as_str());
        from_chars(&out)
    }

    /// The path of the partition with the given number.
    pub fn partition_path(&self, index: u8) -> (out: String)
        ensures
            out@ == self@.partition_path(index),
    {
        let name = to_chars(self.name.as_str());
        let needs_p = name.len() > 0 && '0' <= name[name.len() - 1] && name[name.len() - 1] <= '9';
        let mut out = to_chars("/dev/");
        append(&mut out, &name);
        if needs_p {
            append_str(&mut out, "p");
        }
        push_decimal(&mut out, index as u64);
        from_chars(&out)
    }

    /// The text under which the disk is offered.
    pub fn label(&self) -> (out: String)
        ensures
            out@ == self@.label(),
    {
        let mut out = to_chars(self.name.as_str());
        append_str(&mut out, " (");
        append_str(&mut out, self.size.as_str());
        if self.model.as_str().is_empty() {
            append_str(&mut out, ")");
        } else {
            append_str(&mut out, ") ");
            append_str(&mut out, self.model.as_str());
        }
        from_chars(&out)
    }
}

/// The two characters between a key and its value.
pub open spec fn assign() -> Seq<char> {
    seq!['=', '"']
}

/// The pairs `KEY="value"` that `rest` begins with, one after the other
/// with whitespace between them, up to the first that is not complete.
pub open spec fn kv_pairs(rest: Seq<char>) -> Seq<(Seq<char>, Seq<char>)>
    decreases rest.len(),
{
    match find(rest, assign()) {
        None => Seq::empty(),
        Some(eq) => {
            if 0 <= eq && eq + 2 <= rest.len() {
                let after = rest.skip(eq + 2);
                let q = position(after, '"');
                if 0 <= q < after.len() {
                    proof {
                        lemma_trim_start_len(after.skip(q + 1));
                    }
                    seq![(rest.take(eq), after.take(q))] + kv_pairs(trim_start(after.skip(q + 1)))
                } else {
                    Seq::empty()
                }
            } else {
                Seq::empty()
            }
        },
    }
}

/// The value that the last pair with the key `key` gives.
pub open spec fn lookup(pairs: Seq<(Seq<char>, Seq<char>)>, key: Seq<char>) -> Option<Seq<char>>
    decreases pairs.len(),
{
    if pairs.len() == 0 {
        None
    } else if pairs.last().0 == key {
        Some(pairs.last().1)
    } else {
        lookup(pairs.drop_last(), key)
    }
}

/// The value that the last pair with the key `key` gives, or the empty text.
pub open spec fn lookup_or_empty(pairs: Seq<(Seq<char>, Seq<char>)>, key: Seq<char>) -> Seq<char> {
    match lookup(pairs, key) {
        Some(v) => v,
        None => Seq::empty(),
    }
}

/// The views of a list of pairs of character vectors.
pub open spec fn pair_rows(v: Seq<(Vec<char>, Vec<char>)>) -> Seq<(Seq<char>, Seq<char>)> {
    Seq::new(v.len(), |i: int| (v[i].0@, v[i].1@))
}

/// The pairs `KEY="value"` of a line of the listing, in the order in which
/// they stand.
pub fn parse_lsblk_kv(line: &str) -> (out: Vec<(Vec<char>, Vec<char>)>)
    ensures
        pair_rows(out@) == kv_pairs(trim(line@)),
{
    let mut out: Vec<(Vec<char>, Vec<char>)> = Vec::new();
    let mut rest = trim_chars(&to_chars(line));
    let mut sep: Vec<char> = Vec::new();
    sep.push('=');
    sep.push('"');
    loop
        invariant
            sep@ == assign(),
            pair_rows(out@) + kv_pairs(rest@) == kv_pairs(trim(line@)),
        ensures
            pair_rows(out@) == kv_pairs(trim(line@)),
        decreases rest.len(),
    {
        let eq = match find_chars(&rest, &sep) {
            Some(eq) => eq,
            None => {
                break ;
            },
        };
        proof {
            lemma_find_contains(rest@, sep@, 0);
        }
        let after = slice(&rest, eq + 2, rest.len());
        let q = position_of(&after, '"');
        proof {
            lemma_position_bounds(after@, '"');
        }
        if q >= after.len() {
            break ;
        }
        let key = slice(&rest, 0, eq);
        let value = slice(&after, 0, q);
        let tail = slice(&after, q + 1, after.len());
        let next = trim_start_chars(&tail);
        proof {
            lemma_trim_start_len(tail@);
        }
        out.push((key, value));
        rest = next;
    }
    out
}

/// The value that the last pair with the key `key` gives.
pub fn field(pairs: &Vec<(Vec<char>, Vec<char>)>, key: &str) -> (r: Option<Vec<char>>)
    ensures
        match r {
            Some(v) => lookup(pair_rows(pairs@), key@) == Some(v@),
            None => lookup(pair_rows(pairs@), key@) is None,
        },
{
    let mut k: usize = pairs.len();
    proof {
        assert(pair_rows(pairs@).take(k as int) =~= pair_rows(pairs@));
    }
    while k > 0
        invariant
            k <= pairs.len(),
            lookup(pair_rows(pairs@).take(k as int), key@) == lookup(pair_rows(pairs@), key@),
        decreases k,
    {
        proof {
            let cur = pair_rows(pairs@).take(k as int);
            assert(cur.drop_last() =~= pair_rows(pairs@).take(k - 1));
        }
        if same_str(&pairs[k - 1].0, key) {
            return Some(slice(&pairs[k - 1].1, 0, pairs[k - 1].1.len()));
        }
        k -= 1;
    }
    None
}

/// The disk that a line of the listing describes: a device of type `disk`
/// with a name.
pub open spec fn disk_of_line(line: Seq<char>) -> Option<DiskView> {
    let pairs = kv_pairs(trim(line));
    let name = lookup_or_empty(pairs, "NAME"@);
    if trim(line).len() > 0 && lookup(pairs, "TYPE"@) == Some("disk"@) && name.len() > 0 {
        Some(
            DiskView {
                name,
                size: lookup_or_empty(pairs, "SIZE"@),
                model: lookup_or_empty(pairs, "MODEL"@),
            },
        )
    } else {
        None
    }
}

/// The disks that the lines of a listing describe, in order.
pub open spec fn disks_of(listing: Seq<Seq<char>>) -> Seq<DiskView>
    decreases listing.len(),
{
    if listing.len() == 0 {
        Seq::empty()
    } else {
        disks_of(listing.drop_last()) + (match disk_of_line(listing.last()) {
            Some(d) => seq![d],
            None => Seq::empty(),
        })
    }
}

/// The views of a list of disks.
pub open spec fn disk_views(v: Seq<DiskInfo>) -> Seq<DiskView> {
    Seq::new(v.len(), |i: int| v[i]@)
}

fn field_or_empty(pairs: &Vec<(Vec<char>, Vec<char>)>, key: &str) -> (r: String)
    ensures
        r@ == lookup_or_empty(pair_rows(pairs@), key@),
{
    match field(pairs, key) {
        Some(v) => from_chars(&v),
        None => String::new(),
    }
}

/// The disk that a line of the listing describes.
pub fn parse_disk_line(line: &str) -> (r: Option<DiskInfo>)
    ensures
        match r {
            Some(d) => disk_of_line(line@) == Some(d@),
            None => disk_of_line(line@) is None,
        },
{
    let trimmed = trim_chars(&to_chars(line));
    if trimmed.len() == 0 {
        return None;
    }
    let pairs = parse_lsblk_kv(line);
    let is_disk = match field(&pairs, "TYPE") {
        Some(kind) => same_str(&kind, "disk"),
        None => false,
    };
    if !is_disk {
        return None;
    }
    let name = field_or_empty(&pairs, "NAME");
    if name.as_str().is_empty() {
        return None;
    }
    let size = field_or_empty(&pairs, "SIZE");
    let model = field_or_empty(&pairs, "MODEL");
    Some(DiskInfo { name, size, model })
}

/// The disks that the listing of block devices `output` describes.
pub fn parse_lsblk(output: &str) -> (out: Vec<DiskInfo>)
    ensures
        disk_views(out@) == disks_of(lines(output@)),
{
    let listing = lines_of(&to_chars(output));
    let mut out: Vec<DiskInfo> = Vec::new();
    let mut i: usize = 0;
    while i < listing.len()
        invariant
            i <= listing.len(),
            disk_views(out@) == disks_of(rows(listing@).take(i as int)),
        decreases listing.len() - i,
    {
        proof {
            let next = rows(listing@).take(i + 1);
            assert(next.drop_last() =~= rows(listing@).take(i as int));
        }
        let line = from_chars(&listing[i]);
        match parse_disk_line(line.as_str()) {
            Some(d) => {
                out.push(d);
            },
            None => {},
        }
        i += 1;
    }
    assert(rows(listing@).take(listing.len() as int) =~= rows(listing@));
    out
}

} // verus!
