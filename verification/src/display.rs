//! The screen: its size, as the display tools report it, and what follows
//! from it for the boot menu and the login screen.

use crate::text::{
    contains, contains_str, glue3, is_digit, lines, lines_of, parse_bounded, parse_number, rows,
    slice, split, split_chars, to_chars, trim, trim_chars, trim_start, trim_start_chars, words,
    words_of,
};
use vstd::prelude::*;

verus! {

/// The variant of the boot menu's theme for a screen, and the size at
/// which the boot menu is drawn.
#[derive(Clone, Copy, Debug, PartialEq, Eq)]
pub struct GrubThemeSelection {
    /// The directory of the variant.
    pub folder: &'static str,
    /// The size of the boot menu.
    pub gfxmode: &'static str,
}

/// The classes of screens that the theme knows.
#[derive(Clone, Copy, Debug, PartialEq, Eq, Structural)]
pub enum ScreenClass {
    Uhd,
    UltrawideQhd,
    Ultrawide,
    Qhd,
    Fhd,
}

/// The class of a screen of the given size.
pub open spec fn screen_class(width: u32, height: u32) -> ScreenClass {
    if width >= 3840 || height >= 2160 {
        ScreenClass::Uhd
    } else if width >= 3440 && height >= 1440 {
        ScreenClass::UltrawideQhd
    } else if width >= 2560 && height <= 1080 {
        ScreenClass::Ultrawide
    } else if width >= 2560 || height >= 1440 {
        ScreenClass::Qhd
    } else {
        ScreenClass::Fhd
    }
}

/// The directory of the theme's variant for a class of screens.
pub open spec fn class_folder(class: ScreenClass) -> Seq<char> {
    match class {
        ScreenClass::Uhd => "4k"@,
        ScreenClass::UltrawideQhd => "ultrawide2k"@,
        ScreenClass::Ultrawide => "ultrawide"@,
        ScreenClass::Qhd => "2k"@,
        ScreenClass::Fhd => "1080p"@,
    }
}

/// The size of the boot menu for a class of screens.
pub open spec fn class_gfxmode(class: ScreenClass) -> Seq<char> {
    match class {
        ScreenClass::Uhd => "3840x2160"@,
        ScreenClass::UltrawideQhd => "3440x1440"@,
        ScreenClass::Ultrawide => "2560x1080"@,
        ScreenClass::Qhd => "2560x1440"@,
        ScreenClass::Fhd => "1920x1080"@,
    }
}

/// The theme's variant and the size of the boot menu for a screen of the
/// given size.
pub fn select_grub_theme_selection(width: u32, height: u32) -> (s: GrubThemeSelection)
    ensures
        s.folder@ == class_folder(screen_class(width, height)),
        s.gfxmode@ == class_gfxmode(screen_class(width, height)),
{
    if width >= 3840 || height >= 2160 {
        GrubThemeSelection { folder: "4k", gfxmode: "3840x2160" }
    } else if width >= 3440 && height >= 1440 {
        GrubThemeSelection { folder: "ultrawide2k", gfxmode: "3440x1440" }
    } else if width >= 2560 && height <= 1080 {
        GrubThemeSelection { folder: "ultrawide", gfxmode: "2560x1080" }
    } else if width >= 2560 || height >= 1440 {
        GrubThemeSelection { folder: "2k", gfxmode: "2560x1440" }
    } else {
        GrubThemeSelection { folder: "1080p", gfxmode: "1920x1080" }
    }
}

/// The theme's variant and the size of the boot menu where the screen's
/// size is not known.
pub fn default_grub_theme_selection() -> (s: GrubThemeSelection)
    ensures
        s.folder@ == class_folder(ScreenClass::Fhd),
        s.gfxmode@ == class_gfxmode(ScreenClass::Fhd),
{
    GrubThemeSelection { folder: "1080p", gfxmode: "1920x1080" }
}

/// The class of the screen whose size was detected, or of the usual
/// screen where none was.
pub open spec fn class_of(detected: Option<(u32, u32)>) -> ScreenClass {
    match detected {
        Some(d) => screen_class(d.0, d.1),
        None => ScreenClass::Fhd,
    }
}

/// The theme's variant and the size of the boot menu for the size that
/// was detected, or the default.
pub fn grub_theme_for(detected: Option<(u32, u32)>) -> (s: GrubThemeSelection)
    ensures
        s.folder@ == class_folder(
            match detected {
                Some(d) => screen_class(d.0, d.1),
                None => ScreenClass::Fhd,
            },
        ),
        s.gfxmode@ == class_gfxmode(
            match detected {
                Some(d) => screen_class(d.0, d.1),
                None => ScreenClass::Fhd,
            },
        ),
{
    match detected {
        Some((width, height)) => select_grub_theme_selection(width, height),
        None => default_grub_theme_selection(),
    }
}

/// The factor by which the login screen is scaled for a screen of the
/// given size, written with two decimals.
pub fn scale_from_resolution(width: u32, height: u32) -> (r: &'static str)
    ensures
        r@ == (if width >= 3840 || height >= 2160 {
            "2.00"@
        } else if width >= 2560 || height >= 1440 {
            "1.50"@
        } else {
            "1.00"@
        }),
{
    if width >= 3840 || height >= 2160 {
        "2.00"
    } else if width >= 2560 || height >= 1440 {
        "1.50"
    } else {
        "1.00"
    }
}

/// The settings of the login screen's scaling: the given factor, or
/// automatic scaling where none is known.
pub open spec fn sddm_scale_text(scale: Option<Seq<char>>) -> Seq<char> {
    match scale {
        Some(s) => "[General]\nGreeterEnvironment=QT_SCALE_FACTOR="@ + s
            + ",QT_AUTO_SCREEN_SCALE_FACTOR=0\n\n[Wayland]\nEnableHiDPI=true\n"@,
        None =>
            "[General]\nGreeterEnvironment=QT_AUTO_SCREEN_SCALE_FACTOR=1\n\n[Wayland]\nEnableHiDPI=true\n"@,
    }
}

/// The settings of the login screen's scaling: the given factor, or
/// automatic scaling where none is known.
pub fn sddm_scale_conf(scale: Option<&str>) -> (out: String)
    ensures
        out@ == sddm_scale_text(
            match scale {
                Some(s) => Some(s@),
                None => None,
            },
        ),
{
    match scale {
        Some(s) => glue3(
            "[General]\nGreeterEnvironment=QT_SCALE_FACTOR=",
            s,
            ",QT_AUTO_SCREEN_SCALE_FACTOR=0\n\n[Wayland]\nEnableHiDPI=true\n",
        ),
        None =>
            "[General]\nGreeterEnvironment=QT_AUTO_SCREEN_SCALE_FACTOR=1\n\n[Wayland]\nEnableHiDPI=true\n".to_owned(),
    }
}

/// The size that `s` writes as width, `x` and height; what follows a
/// second `x` does not count.
pub open spec fn mode_of(s: Seq<char>) -> Option<(u32, u32)> {
    let parts = split(s, 'x');
    if parts.len() >= 2 && parse_bounded(parts[0], u32::MAX as nat) is Some && parse_bounded(
        parts[1],
        u32::MAX as nat,
    ) is Some {
        Some(
            (
                parse_bounded(parts[0], u32::MAX as nat)->0 as u32,
                parse_bounded(parts[1], u32::MAX as nat)->0 as u32,
            ),
        )
    } else {
        None
    }
}

/// The size that `v` writes as width, `x` and height.
pub fn read_mode(v: &Vec<char>) -> (r: Option<(u32, u32)>)
    ensures
        r == mode_of(v@),
{
    let parts = split_chars(v, 'x');
    if parts.len() < 2 {
        return None;
    }
    let width = match parse_number(&parts[0], u32::MAX) {
        Some(w) => w,
        None => {
            return None;
        },
    };
    let height = match parse_number(&parts[1], u32::MAX) {
        Some(h) => h,
        None => {
            return None;
        },
    };
    Some((width, height))
}

/// The size that a line of a list of display modes writes.
pub fn parse_mode(mode: &str) -> (r: Option<(u32, u32)>)
    ensures
        r == mode_of(trim(mode@)),
{
    read_mode(&trim_chars(&to_chars(mode)))
}

/// `s` without the marks `*` and `+` that it ends with.
pub open spec fn strip_marks(s: Seq<char>) -> Seq<char>
    decreases s.len(),
{
    if s.len() > 0 && (s.last() == '*' || s.last() == '+') {
        strip_marks(s.drop_last())
    } else {
        s
    }
}

/// `v` without the marks `*` and `+` that it ends with.
pub fn without_marks(v: &Vec<char>) -> (out: Vec<char>)
    ensures
        out@ == strip_marks(v@),
{
    let mut k: usize = v.len();
    assert(v@.take(k as int) =~= v@);
    while k > 0 && (v[k - 1] == '*' || v[k - 1] == '+')
        invariant
            k <= v.len(),
            strip_marks(v@.take(k as int)) == strip_marks(v@),
        decreases k,
    {
        proof {
            assert(v@.take(k as int).drop_last() =~= v@.take(k - 1));
        }
        k -= 1;
    }
    slice(v, 0, k)
}

/// The size that a word of the display tool's output writes, marks at its
/// end aside.
pub fn parse_wlr_mode(token: &str) -> (r: Option<(u32, u32)>)
    ensures
        r == mode_of(strip_marks(token@)),
{
    read_mode(&without_marks(&to_chars(token)))
}

/// The size of the mode in use that a line of the display tool's output
/// shows: the line begins, after whitespace, with a digit, it is marked
/// with `current` or `*`, and its first word writes a size.
pub open spec fn current_mode(line: Seq<char>) -> Option<(u32, u32)> {
    let l = trim_start(line);
    if l.len() > 0 && is_digit(l[0]) && words(l).len() > 0 && (contains(l, "current"@) || contains(
        l,
        "*"@,
    )) {
        mode_of(strip_marks(words(l)[0]))
    } else {
        None
    }
}

/// The number of points of a screen.
pub open spec fn area(size: (u32, u32)) -> int {
    size.0 as int * size.1 as int
}

/// The largest of the modes in use that the lines show; of modes of the
/// same area the first.
pub open spec fn largest_current(listing: Seq<Seq<char>>) -> Option<(u32, u32)>
    decreases listing.len(),
{
    if listing.len() == 0 {
        None
    } else {
        let best = largest_current(listing.drop_last());
        match current_mode(listing.last()) {
            Some(m) => if best is None || area(m) > area(best->0) {
                Some(m)
            } else {
                best
            },
            None => best,
        }
    }
}

fn mode_in_line(line: &Vec<char>) -> (r: Option<(u32, u32)>)
    ensures
        r == current_mode(line@),
{
    let l = trim_start_chars(line);
    if l.len() == 0 || !('0' <= l[0] && l[0] <= '9') {
        return None;
    }
    let found = words_of(&l);
    if found.len() == 0 {
        return None;
    }
    if !(contains_str(&l, "current") || contains_str(&l, "*")) {
        return None;
    }
    read_mode(&without_marks(&found[0]))
}

/// The size of the largest mode in use that the display tool's output shows.
pub fn detect_resolution_from_wlr_randr(output: &str) -> (r: Option<(u32, u32)>)
    ensures
        r == largest_current(lines(output@)),
{
    let listing = lines_of(&to_chars(output));
    let mut best: Option<(u32, u32)> = None;
    let mut i: usize = 0;
    while i < listing.len()
        invariant
            i <= listing.len(),
            best == largest_current(rows(listing@).take(i as int)),
        decreases listing.len() - i,
    {
        proof {
            let next = rows(listing@).take(i + 1);
            assert(next.drop_last() =~= rows(listing@).take(i as int));
        }
        match mode_in_line(&listing[i]) {
            Some((width, height)) => {
                assert(width as u64 * height as u64 <= 0xffff_ffff * 0xffff_ffff)
                    by (nonlinear_arith)
                    requires
                        width <= 0xffff_ffff,
                        height <= 0xffff_ffff,
                ;
                let size: u64 = width as u64 * height as u64;
                match best {
                    None => {
                        best = Some((width, height));
                    },
                    Some((best_width, best_height)) => {
                        assert(best_width as u64 * best_height as u64 <= 0xffff_ffff
                            * 0xffff_ffff) by (nonlinear_arith)
                            requires
                                best_width <= 0xffff_ffff,
                                best_height <= 0xffff_ffff,
                        ;
                        let best_size: u64 = best_width as u64 * best_height as u64;
                        if size > best_size {
                            best = Some((width, height));
                        }
                    },
                }
            },
            None => {},
        }
        i += 1;
    }
    assert(rows(listing@).take(listing.len() as int) =~= rows(listing@));
    best
}

/// The size of the first mode that a list of display modes writes.
pub open spec fn first_mode(listing: Seq<Seq<char>>) -> Option<(u32, u32)>
    decreases listing.len(),
{
    if listing.len() == 0 {
        None
    } else if mode_of(trim(listing[0])) is Some {
        mode_of(trim(listing[0]))
    } else {
        first_mode(listing.skip(1))
    }
}

/// The size of the first mode that the list of display modes `modes`
/// writes, one mode to the line.
pub fn first_display_mode(modes: &str) -> (r: Option<(u32, u32)>)
    ensures
        r == first_mode(lines(modes@)),
{
    let listing = lines_of(&to_chars(modes));
    let mut i: usize = 0;
    assert(rows(listing@).skip(0) =~= rows(listing@));
    while i < listing.len()
        invariant
            i <= listing.len(),
            rows(listing@) == lines(modes@),
            first_mode(rows(listing@).skip(i as int)) == first_mode(rows(listing@)),
        decreases listing.len() - i,
    {
        proof {
            let rest = rows(listing@).skip(i as int);
            assert(rest.skip(1) =~= rows(listing@).skip(i + 1));
        }
        match read_mode(&trim_chars(&listing[i])) {
            Some(m) => {
                return Some(m);
            },
            None => {},
        }
        i += 1;
    }
    None
}

} // verus!
