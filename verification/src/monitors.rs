//! The displays that are attached, as the display tool lists them, and the
//! compositor's settings for them.

use crate::display::{mode_of, read_mode, strip_marks, without_marks};
use crate::model::opt_text;
use crate::text::{
    append, append_str, contains, contains_str, decimal, ends_with, from_chars, has_suffix,
    is_digit, lines, lines_of, push_decimal, rows, slice, texts, to_chars, trim, trim_chars, words,
    words_of,
};
use vstd::prelude::*;

verus! {

/// A display mode, as one line of the display tool's output gives it.
#[derive(Debug, Clone, PartialEq, Eq)]
pub struct ModeCandidate {
    pub width: u32,
    pub height: u32,
    /// The refresh rate, as it is written, if the line gives one.
    pub refresh: Option<String>,
    /// Whether the mode is in use.
    pub is_current: bool,
    /// Whether the display prefers the mode.
    pub is_preferred: bool,
}

/// What a `ModeCandidate` holds, as plain values.
pub struct ModeView {
    pub width: u32,
    pub height: u32,
    pub refresh: Option<Seq<char>>,
    pub is_current: bool,
    pub is_preferred: bool,
}

impl View for ModeCandidate {
    type V = ModeView;

    open spec fn view(&self) -> ModeView {
        ModeView {
            width: self.width,
            height: self.height,
            refresh: opt_text(self.refresh),
            is_current: self.is_current,
            is_preferred: self.is_preferred,
        }
    }
}

/// A display and the mode it is to run in.
#[derive(Debug, Clone, PartialEq, Eq)]
pub struct MonitorMode {
    pub name: String,
    pub width: u32,
    pub height: u32,
    /// The refresh rate, as the display tool writes it, if it gives one.
    pub refresh: Option<String>,
}

/// What a `MonitorMode` holds, as plain values.
pub struct MonitorView {
    pub name: Seq<char>,
    pub width: u32,
    pub height: u32,
    pub refresh: Option<Seq<char>>,
}

impl View for MonitorMode {
    type V = MonitorView;

    open spec fn view(&self) -> MonitorView {
        MonitorView {
            name: self.name@,
            width: self.width,
            height: self.height,
            refresh: opt_text(self.refresh),
        }
    }
}

/// The views of a list of modes.
pub open spec fn mode_views(v: Seq<ModeCandidate>) -> Seq<ModeView> {
    Seq::new(v.len(), |i: int| v[i]@)
}

/// The views of a list of displays.
pub open spec fn monitor_views(v: Seq<MonitorMode>) -> Seq<MonitorView> {
    Seq::new(v.len(), |i: int| v[i]@)
}

/// Whether `s` holds digits and points only.
pub open spec fn is_number_like(s: Seq<char>) -> bool {
    forall|i: int| 0 <= i < s.len() ==> (is_digit(#[trigger] s[i]) || s[i] == '.')
}

/// The refresh rate that a word writes, marks at its end aside: what
/// stands before `Hz`, or the word itself if it holds digits and points only.
pub open spec fn rate_of_word(word: Seq<char>) -> Option<Seq<char>> {
    let cleaned = strip_marks(word);
    if ends_with(cleaned, "Hz"@) {
        Some(cleaned.take(cleaned.len() - "Hz"@.len()))
    } else if is_number_like(cleaned) {
        Some(cleaned)
    } else {
        None
    }
}

/// The refresh rate that the first of `found` that writes one writes.
pub open spec fn first_rate(found: Seq<Seq<char>>) -> Option<Seq<char>>
    decreases found.len(),
{
    if found.len() == 0 {
        None
    } else if rate_of_word(found[0]) is Some {
        rate_of_word(found[0])
    } else {
        first_rate(found.skip(1))
    }
}

/// The mode that a line gives: its first word writes a size with an `x`,
/// a later word may write the refresh rate, and marks or remarks say whether
/// the mode is in use or preferred.
pub open spec fn mode_candidate(line: Seq<char>) -> Option<ModeView> {
    let trimmed = trim(line);
    let found = words(trimmed);
    if trimmed.len() == 0 || found.len() == 0 || !found[0].contains('x') || mode_of(found[0])
        is None {
        None
    } else {
        let size = mode_of(found[0])->0;
        Some(
            ModeView {
                width: size.0,
                height: size.1,
                refresh: first_rate(found.skip(1)),
                is_current: contains(trimmed, "*"@) || contains(trimmed, "(current)"@),
                is_preferred: contains(trimmed, "+"@) || contains(trimmed, "(preferred)"@),
            },
        )
    }
}

fn number_like(v: &Vec<char>) -> (r: bool)
    ensures
        r == is_number_like(v@),
{
    let mut i: usize = 0;
    while i < v.len()
        invariant
            i <= v.len(),
            forall|j: int| 0 <= j < i ==> (is_digit(#[trigger] v@[j]) || v@[j] == '.'),
        decreases v.len() - i,
    {
        let c = v[i];
        if !(('0' <= c && c <= '9') || c == '.') {
            return false;
        }
        i += 1;
    }
    true
}

fn has_char(v: &Vec<char>, c: char) -> (r: bool)
    ensures
        r == v@.contains(c),
{
    let p = crate::text::position_of(v, c);
    proof {
        crate::text::lemma_position_bounds(v@, c);
    }
    p < v.len()
}

/// The mode that a line of the display tool's output gives.
pub fn parse_mode_line(line: &Vec<char>) -> (r: Option<ModeCandidate>)
    ensures
        match r {
            Some(m) => mode_candidate(line@) == Some(m@),
            None => mode_candidate(line@) is None,
        },
{
    let trimmed = trim_chars(line);
    if trimmed.len() == 0 {
        return None;
    }
    let found = words_of(&trimmed);
    if found.len() == 0 {
        return None;
    }
    if !has_char(&found[0], 'x') {
        return None;
    }
    let (width, height) = match read_mode(&found[0]) {
        Some(size) => size,
        None => {
            return None;
        },
    };
    let mut refresh: Option<String> = None;
    let mut i: usize = 1;
    while i < found.len()
        invariant_except_break
            refresh is None,
        invariant
            1 <= i <= found.len(),
            first_rate(rows(found@).skip(i as int)) == first_rate(rows(found@).skip(1)),
        ensures
            opt_text(refresh) == first_rate(rows(found@).skip(1)),
        decreases found.len() - i,
    {
        proof {
            let rest = rows(found@).skip(i as int);
            assert(rest.skip(1) =~= rows(found@).skip(i + 1));
        }
        let cleaned = without_marks(&found[i]);
        if has_suffix(&cleaned, "Hz") {
            let unit = to_chars("Hz");
            let value = slice(&cleaned, 0, cleaned.len() - unit.len());
            refresh = Some(from_chars(&value));
            break ;
        }
        if number_like(&cleaned) {
            refresh = Some(from_chars(&cleaned));
            break ;
        }
        i += 1;
    }
    let is_current = contains_str(&trimmed, "*") || contains_str(&trimmed, "(current)");
    let is_preferred = contains_str(&trimmed, "+") || contains_str(&trimmed, "(preferred)");
    Some(ModeCandidate { width, height, refresh, is_current, is_preferred })
}

/// The first mode that is in use.
pub open spec fn first_current(modes: Seq<ModeView>) -> Option<ModeView>
    decreases modes.len(),
{
    if modes.len() == 0 {
        None
    } else if modes[0].is_current {
        Some(modes[0])
    } else {
        first_current(modes.skip(1))
    }
}

/// The first mode that the display prefers.
pub open spec fn first_preferred(modes: Seq<ModeView>) -> Option<ModeView>
    decreases modes.len(),
{
    if modes.len() == 0 {
        None
    } else if modes[0].is_preferred {
        Some(modes[0])
    } else {
        first_preferred(modes.skip(1))
    }
}

/// The mode that a display is to run in: the first in use, else the first
/// preferred, else the first.
pub open spec fn chosen_mode(modes: Seq<ModeView>) -> Option<ModeView> {
    if first_current(modes) is Some {
        first_current(modes)
    } else if first_preferred(modes) is Some {
        first_preferred(modes)
    } else if modes.len() > 0 {
        Some(modes[0])
    } else {
        None
    }
}

/// The display that is listed once its name and modes are read: none
/// without a name or without a mode.
pub open spec fn listed(name: Option<Seq<char>>, modes: Seq<ModeView>) -> Seq<MonitorView> {
    if name is Some && chosen_mode(modes) is Some {
        let m = chosen_mode(modes)->0;
        seq![MonitorView { name: name->0, width: m.width, height: m.height, refresh: m.refresh }]
    } else {
        Seq::empty()
    }
}

/// Whether a line opens the part of a display: it does not begin with a
/// blank or a tab.
pub open spec fn is_header(line: Seq<char>) -> bool {
    line.len() == 0 || (line[0] != ' ' && line[0] != '\t')
}

/// The first word of a line, if it has one.
pub open spec fn first_word(line: Seq<char>) -> Option<Seq<char>> {
    if words(line).len() > 0 {
        Some(words(line)[0])
    } else {
        None
    }
}

/// The displays that the lines list, where `name` and `modes` were read
/// of the display whose part is open.
pub open spec fn scanned(
    listing: Seq<Seq<char>>,
    name: Option<Seq<char>>,
    modes: Seq<ModeView>,
) -> Seq<
    MonitorView,
>
    decreases listing.len(),
{
    if listing.len() == 0 {
        listed(name, modes)
    } else {
        let line = listing[0];
        if trim(line).len() == 0 {
            scanned(listing.skip(1), name, modes)
        } else if is_header(line) {
            listed(name, modes) + scanned(listing.skip(1), first_word(line), Seq::empty())
        } else {
            scanned(
                listing.skip(1),
                name,
                match mode_candidate(trim(line)) {
                    Some(m) => modes.push(m),
                    None => modes,
                },
            )
        }
    }
}

fn pick_current(modes: &Vec<ModeCandidate>) -> (r: Option<usize>)
    ensures
        match r {
            Some(i) => i < modes.len() && first_current(mode_views(modes@)) == Some(
                modes@[i as int]@,
            ),
            None => first_current(mode_views(modes@)) is None,
        },
{
    let mut i: usize = 0;
    assert(mode_views(modes@).skip(0) =~= mode_views(modes@));
    while i < modes.len()
        invariant
            i <= modes.len(),
            first_current(mode_views(modes@).skip(i as int)) == first_current(mode_views(modes@)),
        decreases modes.len() - i,
    {
        proof {
            let rest = mode_views(modes@).skip(i as int);
            assert(rest.skip(1) =~= mode_views(modes@).skip(i + 1));
        }
        if modes[i].is_current {
            return Some(i);
        }
        i += 1;
    }
    None
}

fn pick_preferred(modes: &Vec<ModeCandidate>) -> (r: Option<usize>)
    ensures
        match r {
            Some(i) => i < modes.len() && first_preferred(mode_views(modes@)) == Some(
                modes@[i as int]@,
            ),
            None => first_preferred(mode_views(modes@)) is None,
        },
{
    let mut i: usize = 0;
    assert(mode_views(modes@).skip(0) =~= mode_views(modes@));
    while i < modes.len()
        invariant
            i <= modes.len(),
            first_preferred(mode_views(modes@).skip(i as int)) == first_preferred(
                mode_views(modes@),
            ),
        decreases modes.len() - i,
    {
        proof {
            let rest = mode_views(modes@).skip(i as int);
            assert(rest.skip(1) =~= mode_views(modes@).skip(i + 1));
        }
        if modes[i].is_preferred {
            return Some(i);
        }
        i += 1;
    }
    None
}

fn list_display(out: &mut Vec<MonitorMode>, name: &Option<String>, modes: &Vec<ModeCandidate>)
    ensures
        monitor_views(final(out)@) == monitor_views(old(out)@) + listed(
            opt_text(*name),
            mode_views(modes@),
        ),
{
    let name = match name {
        Some(name) => name,
        None => {
            return ;
        },
    };
    let index = match pick_current(modes) {
        Some(i) => i,
        None => match pick_preferred(modes) {
            Some(i) => i,
            None => {
                if modes.len() == 0 {
                    return ;
                }
                0
            },
        },
    };
    let mode = &modes[index];
    let monitor = MonitorMode {
        name: name.clone(),
        width: mode.width,
        height: mode.height,
        refresh: crate::model::clone_opt(&mode.refresh),
    };
    out.push(monitor);
}

/// The displays that the display tool's output lists, each with the mode
/// it is to run in.
pub fn parse_wlr_randr(output: &str) -> (out: Vec<MonitorMode>)
    ensures
        monitor_views(out@) == scanned(lines(output@), None, Seq::empty()),
{
    let listing = lines_of(&to_chars(output));
    let mut out: Vec<MonitorMode> = Vec::new();
    let mut name: Option<String> = None;
    let mut modes: Vec<ModeCandidate> = Vec::new();
    let mut i: usize = 0;
    proof {
        assert(rows(listing@).skip(0) =~= rows(listing@));
        assert(mode_views(modes@) =~= Seq::<ModeView>::empty());
    }
    while i < listing.len()
        invariant
            i <= listing.len(),
            monitor_views(out@) + scanned(
                rows(listing@).skip(i as int),
                opt_text(name),
                mode_views(modes@),
            ) == scanned(rows(listing@), None, Seq::empty()),
        decreases listing.len() - i,
    {
        let ghost rest = rows(listing@).skip(i as int);
        let ghost held = mode_views(modes@);
        proof {
            assert(rest.skip(1) =~= rows(listing@).skip(i + 1));
        }
        let line = &listing[i];
        let trimmed = trim_chars(line);
        if trimmed.len() == 0 {
            // a blank line belongs to no display
        } else if line.len() == 0 || (line[0] != ' ' && line[0] != '\t') {
            list_display(&mut out, &name, &modes);
            let found = words_of(line);
            name = if found.len() > 0 {
                Some(from_chars(&found[0]))
            } else {
                None
            };
            modes = Vec::new();
            proof {
                assert(mode_views(modes@) =~= Seq::<ModeView>::empty());
            }
        } else {
            match parse_mode_line(&trimmed) {
                Some(m) => {
                    let ghost mv = m@;
                    modes.push(m);
                    assert(mode_views(modes@) =~= held.push(mv));
                },
                None => {},
            }
        }
        i += 1;
    }
    list_display(&mut out, &name, &modes);
    out
}

/// Whether a display is drawn larger: it is wider than 2560 or higher
/// than 1440 points.
pub open spec fn is_hidpi(m: MonitorView) -> bool {
    m.width > 2560 || m.height > 1440
}

/// The width that a display takes up on the desktop: its width, or two
/// thirds of it, rounded, where it is drawn larger; at most `i32::MAX`.
pub open spec fn logical_width(m: MonitorView) -> int {
    let w = if is_hidpi(m) {
        (2 * m.width + 1) / 3
    } else {
        m.width as int
    };
    if w > i32::MAX {
        i32::MAX as int
    } else {
        w
    }
}

/// Where display `n` begins on the desktop: the displays stand side by
/// side in the order of the list.
pub open spec fn offset_of(monitors: Seq<MonitorView>, n: int) -> int
    decreases n,
{
    if n <= 0 {
        0
    } else {
        offset_of(monitors, n - 1) + logical_width(monitors[n - 1])
    }
}

/// The refresh rate that is written for display `i`: the one given in
/// `rates`, or `60.00` where `rates` has none for it.
pub open spec fn shown_rate(rates: Seq<Seq<char>>, i: int) -> Seq<char> {
    if 0 <= i < rates.len() {
        rates[i]
    } else {
        "60.00"@
    }
}

/// The line of the settings for the display `m`, with the refresh rate
/// `rate`, where the display begins at `offset` on the desktop.
pub open spec fn line_text(m: MonitorView, rate: Seq<char>, offset: nat) -> Seq<char> {
    "monitor = "@ + m.name + ", "@ + decimal(m.width as nat) + "x"@ + decimal(m.height as nat)
        + "@"@ + rate + ", "@ + decimal(offset) + "x0, "@ + (if is_hidpi(m) {
        "1.5"@
    } else {
        "1.0"@
    }) + "\n"@
}

/// The line of the settings for display `i`.
pub open spec fn monitor_line(monitors: Seq<MonitorView>, rates: Seq<Seq<char>>, i: int) -> Seq<
    char,
> {
    line_text(monitors[i], shown_rate(rates, i), offset_of(monitors, i) as nat)
}

fn line_chars(m: &MonitorMode, rate: &str, offset: u64) -> (out: Vec<char>)
    ensures
        out@ == line_text(m@, rate@, offset as nat),
{
    let mut out = to_chars("monitor = ");
    append_str(&mut out, m.name.as_str());
    append_str(&mut out, ", ");
    push_decimal(&mut out, m.width as u64);
    append_str(&mut out, "x");
    push_decimal(&mut out, m.height as u64);
    append_str(&mut out, "@");
    append_str(&mut out, rate);
    append_str(&mut out, ", ");
    push_decimal(&mut out, offset);
    append_str(&mut out, "x0, ");
    if m.width > 2560 || m.height > 1440 {
        append_str(&mut out, "1.5");
    } else {
        append_str(&mut out, "1.0");
    }
    append_str(&mut out, "\n");
    out
}

/// The settings for the first `n` displays.
pub open spec fn monitor_lines(monitors: Seq<MonitorView>, rates: Seq<Seq<char>>, n: int) -> Seq<
    char,
>
    decreases n,
{
    if n <= 0 {
        "# Auto-generated\n"@
    } else {
        monitor_lines(monitors, rates, n - 1) + monitor_line(monitors, rates, n - 1)
    }
}

/// No display begins before the first, and each begins at most
/// `i32::MAX` after the one before it.
pub proof fn lemma_offset_bounds(monitors: Seq<MonitorView>, n: int)
    requires
        0 <= n <= monitors.len(),
    ensures
        0 <= offset_of(monitors, n) <= n * i32::MAX,
    decreases n,
{
    if n > 0 {
        lemma_offset_bounds(monitors, n - 1);
        assert((n - 1) * i32::MAX + i32::MAX == n * i32::MAX) by (nonlinear_arith);
    }
}

/// The compositor's settings for the displays: one line for each, the
/// displays side by side from left to right; none where there is no display.
/// `rates` gives the refresh rate of each display, written with two decimals.
pub fn render_hypr_monitors_conf(monitors: &[MonitorMode], rates: &[String]) -> (r: Option<String>)
    requires
        monitors@.len() <= u32::MAX,
    ensures
        opt_text(r) == (if monitors@.len() == 0 {
            None
        } else {
            Some(monitor_lines(monitor_views(monitors@), texts(rates@), monitors@.len() as int))
        }),
{
    if monitors.len() == 0 {
        return None;
    }
    let mut out = to_chars("# Auto-generated\n");
    let mut x_offset: u64 = 0;
    let mut i: usize = 0;
    while i < monitors.len()
        invariant
            i <= monitors.len(),
            monitors@.len() <= u32::MAX,
            x_offset == offset_of(monitor_views(monitors@), i as int),
            out@ == monitor_lines(monitor_views(monitors@), texts(rates@), i as int),
        decreases monitors.len() - i,
    {
        let m = &monitors[i];
        let hidpi = m.width > 2560 || m.height > 1440;
        let line = if i < rates.len() {
            line_chars(m, rates[i].as_str(), x_offset)
        } else {
            line_chars(m, "60.00", x_offset)
        };
        append(&mut out, &line);
        let wide: u64 = if hidpi {
            (2 * (m.width as u64) + 1) / 3
        } else {
            m.width as u64
        };
        let logical: u64 = if wide > 0x7fff_ffff {
            0x7fff_ffff
        } else {
            wide
        };
        proof {
            lemma_offset_bounds(monitor_views(monitors@), i as int);
            assert(i * i32::MAX <= u32::MAX * i32::MAX) by (nonlinear_arith)
                requires
                    i <= u32::MAX,
            ;
        }
        x_offset = x_offset + logical;
        i += 1;
    }
    Some(from_chars(&out))
}

} // verus!
