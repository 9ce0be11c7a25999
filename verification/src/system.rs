//! Odds and ends of the machine and the installed system: the processor's
//! microcode, what holds a mount busy, and the files that the installer
//! writes into the user's home.

use crate::text::{
    append, append_str, contains, contains_str, decimal, ends_with, find, find_chars,
    from_chars, glue, glue3, has_prefix, has_suffix, join, join_rows, lemma_find_contains, lines,
    lines_of, push_decimal, rows, same, same_str, slice, split, split_chars, starts_with,
    texts, to_chars, trim, trim_chars, trim_start, trim_start_chars,
};
use vstd::prelude::*;
use vstd::string::StringSliceAdditionalSpecFns;

verus! {

/// The microcode package for the processor whose maker a line of the
/// processor listing names; none for a maker that is not known.
pub open spec fn microcode_of_line(line: Seq<char>) -> Option<Seq<char>> {
    let rest = line.skip("vendor_id"@.len() as int);
    let fields = split(rest, ':');
    if fields.len() < 2 {
        None
    } else if trim(fields[1]) == "GenuineIntel"@ {
        Some("intel-ucode"@)
    } else if trim(fields[1]) == "AuthenticAMD"@ {
        Some("amd-ucode"@)
    } else {
        None
    }
}

/// The microcode package that the processor listing asks for: that of the
/// first line that names the processor's maker.
pub open spec fn microcode(listing: Seq<Seq<char>>) -> Option<Seq<char>>
    decreases listing.len(),
{
    if listing.len() == 0 {
        None
    } else if starts_with(listing[0], "vendor_id"@) {
        microcode_of_line(listing[0])
    } else {
        microcode(listing.skip(1))
    }
}

/// The microcode package for the processor that the listing `cpuinfo` describes.
pub fn detect_microcode_package(cpuinfo: &str) -> (r: Option<&'static str>)
    ensures
        (match r {
            Some(p) => Some(p@),
            None => None,
        }) == microcode(lines(cpuinfo@)),
{
    let listing = lines_of(&to_chars(cpuinfo));
    let key = to_chars("vendor_id");
    let mut i: usize = 0;
    assert(rows(listing@).skip(0) =~= rows(listing@));
    while i < listing.len()
        invariant
            i <= listing.len(),
            key@ == "vendor_id"@,
            rows(listing@) == lines(cpuinfo@),
            microcode(rows(listing@).skip(i as int)) == microcode(rows(listing@)),
        decreases listing.len() - i,
    {
        proof {
            let rest = rows(listing@).skip(i as int);
            assert(rest.skip(1) =~= rows(listing@).skip(i + 1));
        }
        if has_prefix(&listing[i], "vendor_id") {
            let rest = slice(&listing[i], key.len(), listing[i].len());
            let fields = split_chars(&rest, ':');
            if fields.len() < 2 {
                return None;
            }
            let vendor = trim_chars(&fields[1]);
            if same_str(&vendor, "GenuineIntel") {
                return Some("intel-ucode");
            } else if same_str(&vendor, "AuthenticAMD") {
                return Some("amd-ucode");
            } else {
                return None;
            }
        }
        i += 1;
    }
    None
}

/// How many mounts are logged at most.
pub const BUSY_MOUNT_LIMIT: usize = 20;

/// The log lines for the mounts under the target among the first `n`
/// lines of the mount table, where `shown` lines were logged before: one
/// line for each mount, and after the last that may be shown a line that says
/// that the list was cut.
pub open spec fn busy_lines(listing: Seq<Seq<char>>, shown: int) -> Seq<Seq<char>>
    decreases listing.len(),
{
    if listing.len() == 0 || shown >= BUSY_MOUNT_LIMIT {
        Seq::empty()
    } else if contains(listing[0], " /mnt"@) {
        seq!["mount: "@ + listing[0]] + (if shown + 1 >= BUSY_MOUNT_LIMIT {
            seq!["mount: (truncated)"@]
        } else {
            Seq::empty()
        }) + busy_lines(listing.skip(1), shown + 1)
    } else {
        busy_lines(listing.skip(1), shown)
    }
}

/// The log lines for the mounts under the target that the mount table
/// `mounts` shows.
pub fn busy_mount_lines(mounts: &str) -> (out: Vec<String>)
    ensures
        texts(out@) == busy_lines(lines(mounts@), 0),
{
    let listing = lines_of(&to_chars(mounts));
    let mut out: Vec<String> = Vec::new();
    let mut count: usize = 0;
    let mut i: usize = 0;
    proof {
        assert(rows(listing@).skip(0) =~= rows(listing@));
    }
    while i < listing.len() && count < BUSY_MOUNT_LIMIT
        invariant
            i <= listing.len(),
            count <= BUSY_MOUNT_LIMIT,
            texts(out@) + busy_lines(rows(listing@).skip(i as int), count as int) == busy_lines(
                rows(listing@),
                0,
            ),
        decreases listing.len() - i,
    {
        let ghost rest = rows(listing@).skip(i as int);
        proof {
            assert(rest.skip(1) =~= rows(listing@).skip(i + 1));
        }
        if contains_str(&listing[i], " /mnt") {
            let mut line = to_chars("mount: ");
            append(&mut line, &listing[i]);
            out.push(from_chars(&line));
            count += 1;
            if count >= BUSY_MOUNT_LIMIT {
                out.push("mount: (truncated)".to_owned());
            }
        }
        i += 1;
    }
    out
}

/// The log lines for what a listing of processes wrote: one for each line
/// that is not blank.
pub open spec fn process_lines(listing: Seq<Seq<char>>) -> Seq<Seq<char>>
    decreases listing.len(),
{
    if listing.len() == 0 {
        Seq::empty()
    } else {
        process_lines(listing.drop_last()) + (if trim(listing.last()).len() > 0 {
            seq!["fuser: "@ + listing.last()]
        } else {
            Seq::empty()
        })
    }
}

/// The log lines for the processes that hold the target busy, from what
/// the listing of processes wrote to its output and to its error stream.
pub fn fuser_lines(stdout: &str, stderr: &str) -> (out: Vec<String>)
    ensures
        texts(out@) == process_lines(lines(stdout@)) + process_lines(lines(stderr@)),
{
    let mut out: Vec<String> = Vec::new();
    add_process_lines(&mut out, stdout);
    add_process_lines(&mut out, stderr);
    out
}

fn add_process_lines(out: &mut Vec<String>, text: &str)
    ensures
        texts(final(out)@) == texts(old(out)@) + process_lines(lines(text@)),
{
    let listing = lines_of(&to_chars(text));
    let mut i: usize = 0;
    while i < listing.len()
        invariant
            i <= listing.len(),
            texts(out@) == texts(old(out)@) + process_lines(rows(listing@).take(i as int)),
        decreases listing.len() - i,
    {
        proof {
            let next = rows(listing@).take(i + 1);
            assert(next.drop_last() =~= rows(listing@).take(i as int));
        }
        let ghost before = texts(out@);
        if trim_chars(&listing[i]).len() > 0 {
            let mut line = to_chars("fuser: ");
            append(&mut line, &listing[i]);
            out.push(from_chars(&line));
            assert(texts(out@) =~= before.push("fuser: "@ + listing@[i as int]@));
        }
        i += 1;
    }
    assert(rows(listing@).take(listing.len() as int) =~= rows(listing@));
}

/// The file that names the installed system, for the given version.
pub open spec fn os_release_text(version: Seq<char>) -> Seq<char> {
    "NAME=Nebula\nPRETTY_NAME=\"Nebula "@ + version
            + "\"\nID=nebula\nID_LIKE=arch\nVERSION_ID="@ + version + "\nVERSION=\""@
            + version + "\"\n"@
}

/// The file that names the installed system, for the given version.
pub fn os_release(version: &str) -> (out: String)
    ensures
        out@ == os_release_text(version@),
{
    let mut out = to_chars("NAME=Nebula\nPRETTY_NAME=\"Nebula ");
    append_str(&mut out, version);
    append_str(&mut out, "\"\nID=nebula\nID_LIKE=arch\nVERSION_ID=");
    append_str(&mut out, version);
    append_str(&mut out, "\nVERSION=\"");
    append_str(&mut out, version);
    append_str(&mut out, "\"\n");
    from_chars(&out)
}

/// The line of the encrypted volume in the table of such volumes.
pub open spec fn crypttab_text(root_uuid: Seq<char>) -> Seq<char> {
    "cryptroot UUID="@ + root_uuid + " none luks\n"@
}

/// The line of the encrypted volume in the table of such volumes.
pub fn crypttab_line(root_uuid: &str) -> (out: String)
    ensures
        out@ == crypttab_text(root_uuid@),
{
    glue3("cryptroot UUID=", root_uuid, " none luks\n")
}

/// How many lines of the display tool's output are shown in the log.
pub const PREVIEW_LINES: usize = 12;

/// The first lines of `listing`, at most `PREVIEW_LINES` of them.
pub open spec fn preview(listing: Seq<Seq<char>>) -> Seq<Seq<char>> {
    if listing.len() > PREVIEW_LINES {
        listing.take(PREVIEW_LINES as int)
    } else {
        listing
    }
}

/// The log line that shows what the display tool wrote: its length in
/// bytes and its first lines, a backslash and an `n` between them.
pub fn wlr_randr_preview(stdout: &str) -> (out: String)
    ensures
        out@ == "wlr-randr output size: "@ + decimal(stdout.spec_bytes().len()) + " bytes\\n"@
            + join(preview(lines(stdout@)), "\\n"@),
{
    let listing = lines_of(&to_chars(stdout));
    let mut first: Vec<Vec<char>> = Vec::new();
    let n = if listing.len() > PREVIEW_LINES {
        PREVIEW_LINES
    } else {
        listing.len()
    };
    let mut i: usize = 0;
    while i < n
        invariant
            i <= n,
            n <= listing.len(),
            first.len() == i,
            forall|j: int| 0 <= j < i ==> (#[trigger] first@[j])@ == listing@[j]@,
        decreases n - i,
    {
        first.push(slice(&listing[i], 0, listing[i].len()));
        i += 1;
    }
    assert(rows(first@) =~= preview(rows(listing@)));
    let mut out = to_chars("wlr-randr output size: ");
    push_decimal(&mut out, stdout.as_bytes().len() as u64);
    append_str(&mut out, " bytes\\n");
    let joined = join_rows(&first, "\\n");
    append(&mut out, &joined);
    from_chars(&out)
}

/// `s` with every occurrence of `from` replaced by `to`, from the left,
/// occurrences that overlap an earlier one left alone. An empty `from` is
/// not looked for.
pub open spec fn replaced(s: Seq<char>, from: Seq<char>, to: Seq<char>) -> Seq<char>
    decreases s.len(),
{
    if from.len() == 0 {
        s
    } else {
        match find(s, from) {
            Some(i) => if 0 <= i && i + from.len() <= s.len() {
                s.take(i) + to + replaced(s.skip(i + from.len()), from, to)
            } else {
                s
            },
            None => s,
        }
    }
}

/// `v` with every occurrence of `from` replaced by `to`.
pub fn replace_all(v: &Vec<char>, from: &Vec<char>, to: &Vec<char>) -> (out: Vec<char>)
    ensures
        out@ == replaced(v@, from@, to@),
{
    if from.len() == 0 {
        return slice(v, 0, v.len());
    }
    let mut out: Vec<char> = Vec::new();
    let mut rest = slice(v, 0, v.len());
    assert(rest@ =~= v@);
    loop
        invariant_except_break
            out@ + replaced(rest@, from@, to@) == replaced(v@, from@, to@),
        invariant
            from.len() > 0,
        ensures
            out@ == replaced(v@, from@, to@),
        decreases rest.len(),
    {
        match find_chars(&rest, from) {
            Some(i) => {
                proof {
                    lemma_find_contains(rest@, from@, 0);
                }
                let head = slice(&rest, 0, i);
                let tail = slice(&rest, i + from.len(), rest.len());
                append(&mut out, &head);
                append(&mut out, to);
                rest = tail;
            },
            None => {
                append(&mut out, &rest);
                break ;
            },
        }
    }
    out
}

/// The lines that do not, after whitespace, begin with `prefix`.
pub open spec fn lines_without(listing: Seq<Seq<char>>, prefix: Seq<char>) -> Seq<Seq<char>>
    decreases listing.len(),
{
    if listing.len() == 0 {
        Seq::empty()
    } else {
        lines_without(listing.drop_last(), prefix) + (if starts_with(
            trim_start(listing.last()),
            prefix,
        ) {
            Seq::empty()
        } else {
            seq![listing.last()]
        })
    }
}

/// Whether some line is, whitespace at its ends aside, `wanted`.
pub open spec fn has_line(listing: Seq<Seq<char>>, wanted: Seq<char>) -> bool {
    exists|i: int| 0 <= i < listing.len() && trim(#[trigger] listing[i]) == wanted
}

/// The compositor's settings with the installer's hook: a mention of the
/// hook's file under the target is turned into its path in the user's home,
/// lines that include a file under the target are dropped, and a line that
/// includes the hook's file is added unless one is there.
pub open spec fn hooked(
    existing: Seq<char>,
    target_include: Seq<char>,
    home_include: Seq<char>,
) -> Seq<
    char,
> {
    let cleaned = join(
        lines_without(
            lines(replaced(existing, "source = "@ + target_include, home_include)),
            "source = /mnt/home/"@,
        ),
        "\n"@,
    );
    if has_line(lines(cleaned), "source = "@ + home_include) {
        cleaned
    } else {
        (if ends_with(cleaned, "\n"@) {
            cleaned
        } else {
            cleaned + "\n"@
        }) + "# Nebula post-install hooks\n"@ + "source = "@ + home_include + "\n"@
    }
}

fn holds_line(text: &Vec<char>, wanted: &Vec<char>) -> (r: bool)
    ensures
        r == has_line(lines(text@), wanted@),
{
    let listing = lines_of(text);
    let mut i: usize = 0;
    while i < listing.len()
        invariant
            i <= listing.len(),
            rows(listing@) == lines(text@),
            forall|j: int| 0 <= j < i ==> trim(#[trigger] rows(listing@)[j]) != wanted@,
        decreases listing.len() - i,
    {
        assert(rows(listing@)[i as int] == listing@[i as int]@);
        if same(&trim_chars(&listing[i]), wanted) {
            return true;
        }
        i += 1;
    }
    false
}

/// The compositor's settings `existing` with the installer's hook, whose
/// file lies at `target_include` under the target and at `home_include` in
/// the user's home.
pub fn hook_hyprland_conf(existing: &str, target_include: &str, home_include: &str) -> (out:
    String)
    ensures
        out@ == hooked(existing@, target_include@, home_include@),
{
    let from = to_chars(glue("source = ", target_include).as_str());
    let to = to_chars(home_include);
    let swapped = replace_all(&to_chars(existing), &from, &to);
    let listing = lines_of(&swapped);
    let mut kept: Vec<Vec<char>> = Vec::new();
    let mut i: usize = 0;
    while i < listing.len()
        invariant
            i <= listing.len(),
            rows(kept@) == lines_without(rows(listing@).take(i as int), "source = /mnt/home/"@),
        decreases listing.len() - i,
    {
        proof {
            let next = rows(listing@).take(i + 1);
            assert(next.drop_last() =~= rows(listing@).take(i as int));
        }
        if !has_prefix(&trim_start_chars(&listing[i]), "source = /mnt/home/") {
            kept.push(slice(&listing[i], 0, listing[i].len()));
            assert(listing@[i as int]@.subrange(0, listing@[i as int]@.len() as int)
                =~= listing@[i as int]@);
        }
        i += 1;
    }
    assert(rows(listing@).take(listing.len() as int) =~= rows(listing@));
    let mut cleaned = join_rows(&kept, "\n");
    let wanted = to_chars(glue("source = ", home_include).as_str());
    if !holds_line(&cleaned, &wanted) {
        if !has_suffix(&cleaned, "\n") {
            append_str(&mut cleaned, "\n");
        }
        append_str(&mut cleaned, "# Nebula post-install hooks\n");
        append_str(&mut cleaned, "source = ");
        append_str(&mut cleaned, home_include);
        append_str(&mut cleaned, "\n");
    }
    from_chars(&cleaned)
}

} // verus!
