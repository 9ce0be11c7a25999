//! The boot loader's settings file, which is changed line by line, and the
//! choice of the boot menu's theme by the size of the screen.

use crate::lists::holds;
use crate::text::{
    append, append_str, contains, from_chars, has_prefix, join, join_rows, last_position,
    last_position_of, lemma_position_bounds, lines, lines_of, position, position_of, rows, same,
    slice, starts_with, texts, to_chars, words, words_of,
};
use vstd::prelude::*;

verus! {

/// The key of the kernel's command line in the settings file.
pub const CMDLINE_KEY: &'static str = "GRUB_CMDLINE_LINUX=";

/// How the lines of the settings file are changed.
#[derive(Debug, Clone, PartialEq, Eq)]
pub enum Rule {
    /// Every line that begins with `prefix` becomes `line`.
    Replace { prefix: String, line: String },
    /// Every kernel command line gets those of `params` that it lacks.
    Ensure { params: Vec<String> },
    /// Every kernel command line loses those of its words that are in `params`.
    Remove { params: Vec<String> },
}

/// What a `Rule` holds, as plain text.
pub enum RuleView {
    Replace { prefix: Seq<char>, line: Seq<char> },
    Ensure { params: Seq<Seq<char>> },
    Remove { params: Seq<Seq<char>> },
}

impl View for Rule {
    type V = RuleView;

    open spec fn view(&self) -> RuleView {
        match self {
            Rule::Replace { prefix, line } => RuleView::Replace { prefix: prefix@, line: line@ },
            Rule::Ensure { params } => RuleView::Ensure { params: texts(params@) },
            Rule::Remove { params } => RuleView::Remove { params: texts(params@) },
        }
    }
}

/// `words` followed by those of `params` that are not among them; a
/// parameter that stands twice in `params` is added twice.
pub open spec fn with_params(words: Seq<Seq<char>>, params: Seq<Seq<char>>) -> Seq<Seq<char>>
    decreases params.len(),
{
    if params.len() == 0 {
        words
    } else {
        let before = with_params(words, params.drop_last());
        if before.contains(params.last()) {
            before
        } else {
            before.push(params.last())
        }
    }
}

/// `words` without those that are in `params`.
pub open spec fn without_params(words: Seq<Seq<char>>, params: Seq<Seq<char>>) -> Seq<Seq<char>>
    decreases words.len(),
{
    if words.len() == 0 {
        Seq::empty()
    } else {
        without_params(words.drop_last(), params) + (if params.contains(words.last()) {
            Seq::empty()
        } else {
            seq![words.last()]
        })
    }
}

/// The words between the first and the last quotation mark of `line`, if
/// it has two.
pub open spec fn quoted_words(line: Seq<char>) -> Option<Seq<Seq<char>>> {
    let start = position(line, '"');
    let end = last_position(line, '"');
    if start < end {
        Some(words(line.subrange(start + 1, end)))
    } else {
        None
    }
}

/// A kernel command line with the given words.
pub open spec fn cmdline_with(words: Seq<Seq<char>>) -> Seq<char> {
    "GRUB_CMDLINE_LINUX=\" "@ + join(words, " "@) + "\""@
}

/// The prefix by which `rule` knows its lines.
pub open spec fn rule_prefix(rule: RuleView) -> Seq<char> {
    match rule {
        RuleView::Replace { prefix, .. } => prefix,
        _ => CMDLINE_KEY@,
    }
}

/// What `rule` makes of a line that begins with its prefix.
pub open spec fn rewritten_line(rule: RuleView, line: Seq<char>) -> Seq<char> {
    match rule {
        RuleView::Replace { line: new, .. } => new,
        RuleView::Ensure { params } => match quoted_words(line) {
            Some(w) => cmdline_with(with_params(w, params)),
            None => cmdline_with(params),
        },
        RuleView::Remove { params } => match quoted_words(line) {
            Some(w) => cmdline_with(without_params(w, params)),
            None => cmdline_with(Seq::empty()),
        },
    }
}

/// The line that `rule` adds to a file that has none with its prefix.
pub open spec fn added_line(rule: RuleView) -> Seq<char> {
    match rule {
        RuleView::Replace { line, .. } => line,
        RuleView::Ensure { params } => cmdline_with(params),
        RuleView::Remove { .. } => cmdline_with(Seq::empty()),
    }
}

/// The lines of a file after `rule`, each ended with a line feed.
pub open spec fn rewritten_lines(rule: RuleView, listing: Seq<Seq<char>>) -> Seq<char>
    decreases listing.len(),
{
    if listing.len() == 0 {
        Seq::empty()
    } else {
        let line = listing.last();
        rewritten_lines(rule, listing.drop_last()) + (if starts_with(line, rule_prefix(rule)) {
            rewritten_line(rule, line)
        } else {
            line
        }) + "\n"@
    }
}

/// Whether some line begins with `prefix`.
pub open spec fn any_prefixed(listing: Seq<Seq<char>>, prefix: Seq<char>) -> bool
    decreases listing.len(),
{
    listing.len() > 0 && (any_prefixed(listing.drop_last(), prefix) || starts_with(
        listing.last(),
        prefix,
    ))
}

/// The settings file after `rule`: the lines that begin with the rule's
/// prefix are changed, the others stay, and where no line begins with it a
/// line is added at the end. Every line ends with a line feed.
pub open spec fn rewritten(rule: RuleView, contents: Seq<char>) -> Seq<char> {
    rewritten_lines(rule, lines(contents)) + (if any_prefixed(lines(contents), rule_prefix(rule)) {
        Seq::empty()
    } else {
        added_line(rule) + "\n"@
    })
}

fn copy_rows(list: &Vec<String>) -> (out: Vec<Vec<char>>)
    ensures
        rows(out@) == texts(list@),
{
    let mut out: Vec<Vec<char>> = Vec::new();
    let mut i: usize = 0;
    while i < list.len()
        invariant
            i <= list.len(),
            out.len() == i,
            forall|j: int| 0 <= j < i ==> (#[trigger] out@[j])@ == list@[j]@,
        decreases list.len() - i,
    {
        out.push(to_chars(list[i].as_str()));
        i += 1;
    }
    out
}

fn row_held(list: &Vec<Vec<char>>, value: &Vec<char>) -> (r: bool)
    ensures
        r == rows(list@).contains(value@),
{
    let mut i: usize = 0;
    while i < list.len()
        invariant
            i <= list.len(),
            forall|j: int| 0 <= j < i ==> rows(list@)[j] != value@,
        decreases list.len() - i,
    {
        if same(&list[i], value) {
            assert(rows(list@)[i as int] == value@);
            return true;
        }
        i += 1;
    }
    false
}

fn add_params(found: Vec<Vec<char>>, params: &Vec<Vec<char>>) -> (out: Vec<Vec<char>>)
    ensures
        rows(out@) == with_params(rows(found@), rows(params@)),
{
    let mut out = found;
    let mut i: usize = 0;
    while i < params.len()
        invariant
            i <= params.len(),
            rows(out@) == with_params(rows(found@), rows(params@).take(i as int)),
        decreases params.len() - i,
    {
        proof {
            let next = rows(params@).take(i + 1);
            assert(next.drop_last() =~= rows(params@).take(i as int));
        }
        if !row_held(&out, &params[i]) {
            out.push(slice(&params[i], 0, params[i].len()));
            assert(params@[i as int]@.subrange(0, params@[i as int]@.len() as int)
                =~= params@[i as int]@);
        }
        i += 1;
    }
    assert(rows(params@).take(params.len() as int) =~= rows(params@));
    out
}

fn drop_params(found: &Vec<Vec<char>>, params: &Vec<Vec<char>>) -> (out: Vec<Vec<char>>)
    ensures
        rows(out@) == without_params(rows(found@), rows(params@)),
{
    let mut out: Vec<Vec<char>> = Vec::new();
    let mut i: usize = 0;
    while i < found.len()
        invariant
            i <= found.len(),
            rows(out@) == without_params(rows(found@).take(i as int), rows(params@)),
        decreases found.len() - i,
    {
        proof {
            let next = rows(found@).take(i + 1);
            assert(next.drop_last() =~= rows(found@).take(i as int));
        }
        if !row_held(params, &found[i]) {
            out.push(slice(&found[i], 0, found[i].len()));
            assert(found@[i as int]@.subrange(0, found@[i as int]@.len() as int)
                =~= found@[i as int]@);
        }
        i += 1;
    }
    assert(rows(found@).take(found.len() as int) =~= rows(found@));
    out
}

fn words_in_quotes(line: &Vec<char>) -> (r: Option<Vec<Vec<char>>>)
    ensures
        match r {
            Some(w) => quoted_words(line@) == Some(rows(w@)),
            None => quoted_words(line@) is None,
        },
{
    let start = position_of(line, '"');
    proof {
        lemma_position_bounds(line@, '"');
    }
    match last_position_of(line, '"') {
        Some(end) => {
            if start < end {
                let inner = slice(line, start + 1, end);
                Some(words_of(&inner))
            } else {
                None
            }
        },
        None => None,
    }
}

fn cmdline_of(found: &Vec<Vec<char>>) -> (out: Vec<char>)
    ensures
        out@ == cmdline_with(rows(found@)),
{
    let mut out = to_chars("GRUB_CMDLINE_LINUX=\" ");
    let joined = join_rows(found, " ");
    append(&mut out, &joined);
    append_str(&mut out, "\"");
    out
}

fn rewrite_line(rule: &Rule, line: &Vec<char>) -> (out: Vec<char>)
    ensures
        out@ == rewritten_line(rule@, line@),
{
    match rule {
        Rule::Replace { line: new, .. } => to_chars(new.as_str()),
        Rule::Ensure { params } => {
            let wanted = copy_rows(params);
            match words_in_quotes(line) {
                Some(found) => cmdline_of(&add_params(found, &wanted)),
                None => cmdline_of(&wanted),
            }
        },
        Rule::Remove { params } => {
            let unwanted = copy_rows(params);
            match words_in_quotes(line) {
                Some(found) => cmdline_of(&drop_params(&found, &unwanted)),
                None => {
                    let none: Vec<Vec<char>> = Vec::new();
                    cmdline_of(&none)
                },
            }
        },
    }
}

fn added(rule: &Rule) -> (out: Vec<char>)
    ensures
        out@ == added_line(rule@),
{
    match rule {
        Rule::Replace { line, .. } => to_chars(line.as_str()),
        Rule::Ensure { params } => cmdline_of(&copy_rows(params)),
        Rule::Remove { .. } => {
            let none: Vec<Vec<char>> = Vec::new();
            cmdline_of(&none)
        },
    }
}

/// The settings file `contents` after `rule`.
pub fn rewrite(rule: &Rule, contents: &str) -> (out: String)
    ensures
        out@ == rewritten(rule@, contents@),
{
    let listing = lines_of(&to_chars(contents));
    let prefix: String = match rule {
        Rule::Replace { prefix, .. } => prefix.clone(),
        _ => CMDLINE_KEY.to_owned(),
    };
    let mut out: Vec<char> = Vec::new();
    let mut replaced = false;
    let mut i: usize = 0;
    while i < listing.len()
        invariant
            i <= listing.len(),
            prefix@ == rule_prefix(rule@),
            out@ == rewritten_lines(rule@, rows(listing@).take(i as int)),
            replaced == any_prefixed(rows(listing@).take(i as int), prefix@),
        decreases listing.len() - i,
    {
        proof {
            let next = rows(listing@).take(i + 1);
            assert(next.drop_last() =~= rows(listing@).take(i as int));
        }
        if has_prefix(&listing[i], prefix.as_str()) {
            let new = rewrite_line(rule, &listing[i]);
            append(&mut out, &new);
            replaced = true;
        } else {
            append(&mut out, &listing[i]);
        }
        append_str(&mut out, "\n");
        i += 1;
    }
    assert(rows(listing@).take(listing.len() as int) =~= rows(listing@));
    if !replaced {
        let last = added(rule);
        append(&mut out, &last);
        append_str(&mut out, "\n");
    }
    from_chars(&out)
}

/// The rule that names the distribution in the boot menu.
pub fn set_grub_distributor() -> (r: Rule)
    ensures
        r@ == (RuleView::Replace {
            prefix: "GRUB_DISTRIBUTOR="@,
            line: "GRUB_DISTRIBUTOR=\"Nebula\""@,
        }),
{
    Rule::Replace {
        prefix: "GRUB_DISTRIBUTOR=".to_owned(),
        line: "GRUB_DISTRIBUTOR=\"Nebula\"".to_owned(),
    }
}

/// The rule that sets the theme of the boot menu.
pub fn set_grub_theme() -> (r: Rule)
    ensures
        r@ == (RuleView::Replace {
            prefix: "GRUB_THEME="@,
            line: "GRUB_THEME=\"/boot/grub/themes/nebula-vimix-grub/theme.txt\""@,
        }),
{
    Rule::Replace {
        prefix: "GRUB_THEME=".to_owned(),
        line: "GRUB_THEME=\"/boot/grub/themes/nebula-vimix-grub/theme.txt\"".to_owned(),
    }
}

/// The rule that sets the size of the boot menu.
pub fn set_grub_gfxmode(gfxmode: &str) -> (r: Rule)
    ensures
        r@ == (RuleView::Replace { prefix: "GRUB_GFXMODE="@, line: "GRUB_GFXMODE="@ + gfxmode@ }),
{
    Rule::Replace {
        prefix: "GRUB_GFXMODE=".to_owned(),
        line: crate::text::glue("GRUB_GFXMODE=", gfxmode),
    }
}

/// The rule that keeps the size of the boot menu for the kernel.
pub fn set_grub_gfxpayload() -> (r: Rule)
    ensures
        r@ == (RuleView::Replace {
            prefix: "GRUB_GFXPAYLOAD_LINUX="@,
            line: "GRUB_GFXPAYLOAD_LINUX=keep"@,
        }),
{
    Rule::Replace {
        prefix: "GRUB_GFXPAYLOAD_LINUX=".to_owned(),
        line: "GRUB_GFXPAYLOAD_LINUX=keep".to_owned(),
    }
}

/// The rule that makes the kernel open the encrypted volume with the
/// identifier `root_uuid`.
pub fn update_grub_cmdline(root_uuid: &str) -> (r: Rule)
    ensures
        r@ == (RuleView::Replace {
            prefix: CMDLINE_KEY@,
            line: "GRUB_CMDLINE_LINUX=\"cryptdevice=UUID="@ + root_uuid@
                + ":cryptroot root=/dev/mapper/cryptroot quiet splash\""@,
        }),
{
    Rule::Replace {
        prefix: CMDLINE_KEY.to_owned(),
        line: crate::text::glue3(
            "GRUB_CMDLINE_LINUX=\"cryptdevice=UUID=",
            root_uuid,
            ":cryptroot root=/dev/mapper/cryptroot quiet splash\"",
        ),
    }
}

/// The rule that makes sure that the kernel's command line holds `params`.
pub fn ensure_grub_cmdline_params(params: &[&str]) -> (r: Rule)
    ensures
        r@ == (RuleView::Ensure { params: crate::text::str_texts(params@) }),
{
    let owned = crate::command::strings(params);
    assert(texts(owned@) =~= crate::text::str_texts(params@));
    Rule::Ensure { params: owned }
}

/// The rule that takes `params` out of the kernel's command line.
pub fn remove_grub_cmdline_params(params: &[&str]) -> (r: Rule)
    ensures
        r@ == (RuleView::Remove { params: crate::text::str_texts(params@) }),
{
    let owned = crate::command::strings(params);
    assert(texts(owned@) =~= crate::text::str_texts(params@));
    Rule::Remove { params: owned }
}

/// The kernel command line that is added to a settings file without one,
/// ended with a line feed.
pub fn confirm_cmdline(params: &[&str]) -> (out: String)
    ensures
        out@ == cmdline_with(crate::text::str_texts(params@)) + "\n"@,
{
    let owned = crate::command::strings(params);
    assert(texts(owned@) =~= crate::text::str_texts(params@));
    let mut out = cmdline_of(&copy_rows(&owned));
    append_str(&mut out, "\n");
    from_chars(&out)
}

} // verus!
