//! The applications that can be chosen for installation, and the packages
//! that a choice brings.

use crate::command::{clone_strings, strings};
use crate::lists::{extend_unique, extend_unique_owned, holds};
use crate::text::{str_texts, texts};
use vstd::prelude::*;

verus! {

/// Packages to install, by where they come from.
#[derive(Default, Clone, Debug, PartialEq, Eq)]
pub struct PackageSelection {
    /// Packages of the distribution's repositories.
    pub pacman: Vec<String>,
    /// Packages of the user repository.
    pub yay: Vec<String>,
}

/// What a `PackageSelection` holds, as plain text.
pub struct SelectionView {
    pub pacman: Seq<Seq<char>>,
    pub yay: Seq<Seq<char>>,
}

impl View for PackageSelection {
    type V = SelectionView;

    open spec fn view(&self) -> SelectionView {
        SelectionView { pacman: texts(self.pacman@), yay: texts(self.yay@) }
    }
}

/// An application that can be chosen.
#[derive(Debug, Clone, PartialEq, Eq)]
pub struct InstallChoice {
    /// The name under which it is offered.
    pub label: String,
    /// The packages it needs from the distribution's repositories.
    pub pacman: Vec<String>,
    /// The packages it needs from the user repository.
    pub yay: Vec<String>,
}

/// What an `InstallChoice` holds, as plain text.
pub struct ChoiceView {
    pub label: Seq<char>,
    pub pacman: Seq<Seq<char>>,
    pub yay: Seq<Seq<char>>,
}

impl View for InstallChoice {
    type V = ChoiceView;

    open spec fn view(&self) -> ChoiceView {
        ChoiceView { label: self.label@, pacman: texts(self.pacman@), yay: texts(self.yay@) }
    }
}

/// The views of a list of choices.
pub open spec fn choice_views(v: Seq<InstallChoice>) -> Seq<ChoiceView> {
    Seq::new(v.len(), |i: int| v[i]@)
}

/// How many compositors are offered.
pub const COMPOSITOR_COUNT: usize = 1;

/// How many browsers are offered.
pub const BROWSER_COUNT: usize = 9;

/// How many editors are offered.
pub const EDITOR_COUNT: usize = 5;

/// How many terminals are offered.
pub const TERMINAL_COUNT: usize = 3;

/// The check boxes of the application screen, one flag for each offer.
#[derive(Clone, Debug, PartialEq, Eq)]
pub struct AppSelectionFlags {
    pub compositors: Vec<bool>,
    pub browsers: Vec<bool>,
    pub editors: Vec<bool>,
    pub terminals: Vec<bool>,
}

/// `n` flags that are not set.
pub open spec fn unset(n: nat) -> Seq<bool> {
    Seq::new(n, |i: int| false)
}

fn cleared(n: usize) -> (out: Vec<bool>)
    ensures
        out@ == unset(n as nat),
{
    let mut out: Vec<bool> = Vec::new();
    let mut i: usize = 0;
    while i < n
        invariant
            i <= n,
            out@ =~= unset(i as nat),
        decreases n - i,
    {
        out.push(false);
        i += 1;
    }
    out
}

impl AppSelectionFlags {
    /// The flags before anything is chosen: the first compositor is set,
    /// and nothing else.
    pub fn new() -> (f: AppSelectionFlags)
        ensures
            f.compositors@ == unset(COMPOSITOR_COUNT as nat).update(0, true),
            f.browsers@ == unset(BROWSER_COUNT as nat),
            f.editors@ == unset(EDITOR_COUNT as nat),
            f.terminals@ == unset(TERMINAL_COUNT as nat),
    {
        let mut compositors = cleared(COMPOSITOR_COUNT);
        compositors.set(0, true);
        AppSelectionFlags {
            compositors,
            browsers: cleared(BROWSER_COUNT),
            editors: cleared(EDITOR_COUNT),
            terminals: cleared(TERMINAL_COUNT),
        }
    }

    /// Sets the first compositor, which cannot be left out.
    pub fn enforce_defaults(&mut self)
        ensures
            final(self).compositors@ == (if old(self).compositors@.len() > 0 {
                old(self).compositors@.update(0, true)
            } else {
                old(self).compositors@
            }),
            final(self).browsers == old(self).browsers,
            final(self).editors == old(self).editors,
            final(self).terminals == old(self).terminals,
    {
        if self.compositors.len() > 0 {
            self.compositors.set(0, true);
        }
    }
}

/// The selection that holds nothing.
pub open spec fn nothing() -> SelectionView {
    SelectionView { pacman: Seq::empty(), yay: Seq::empty() }
}

/// `target` with the packages of `source` that it does not hold yet.
pub open spec fn merged(target: SelectionView, source: SelectionView) -> SelectionView {
    SelectionView {
        pacman: extend_unique(target.pacman, source.pacman),
        yay: extend_unique(target.yay, source.yay),
    }
}

/// The packages of the first `n` choices whose flag is set, none of them twice.
pub open spec fn selected(flags: Seq<bool>, choices: Seq<ChoiceView>, n: int) -> SelectionView
    decreases n,
{
    if n <= 0 {
        nothing()
    } else {
        let before = selected(flags, choices, n - 1);
        if flags[n - 1] {
            merged(before, SelectionView { pacman: choices[n - 1].pacman, yay: choices[n - 1].yay })
        } else {
            before
        }
    }
}

/// The smaller of two lengths.
pub open spec fn shorter(a: nat, b: nat) -> int {
    if a <= b {
        a as int
    } else {
        b as int
    }
}

/// Adds to `target` the packages of `source` that it does not hold yet.
pub fn merge_selection(target: &mut PackageSelection, source: PackageSelection)
    ensures
        final(target)@ == merged(old(target)@, source@),
{
    extend_unique_owned(&mut target.pacman, source.pacman);
    extend_unique_owned(&mut target.yay, source.yay);
}

/// The packages of the choices whose flag is set. Flags without a choice
/// and choices without a flag do not count.
pub fn selection_from_flags_for(flags: &[bool], choices: &[InstallChoice]) -> (out:
    PackageSelection)
    ensures
        out@ == selected(flags@, choice_views(choices@), shorter(flags@.len(), choices@.len())),
{
    let n = if flags.len() <= choices.len() {
        flags.len()
    } else {
        choices.len()
    };
    let mut out = PackageSelection { pacman: Vec::new(), yay: Vec::new() };
    assert(out@.pacman =~= Seq::<Seq<char>>::empty());
    let mut i: usize = 0;
    while i < n
        invariant
            i <= n,
            n <= flags.len(),
            n <= choices.len(),
            out@ == selected(flags@, choice_views(choices@), i as int),
        decreases n - i,
    {
        if flags[i] {
            let pacman = clone_strings(&choices[i].pacman);
            let yay = clone_strings(&choices[i].yay);
            merge_selection(&mut out, PackageSelection { pacman, yay });
        }
        i += 1;
    }
    out
}

/// The selection that the flags of the application screen stand for.
pub open spec fn app_selection(
    flags: AppSelectionFlags,
    browsers: Seq<ChoiceView>,
    editors: Seq<ChoiceView>,
    terminals: Seq<ChoiceView>,
) -> SelectionView {
    let b = selected(flags.browsers@, browsers, shorter(flags.browsers@.len(), browsers.len()));
    let e = selected(flags.editors@, editors, shorter(flags.editors@.len(), editors.len()));
    let t = selected(flags.terminals@, terminals, shorter(flags.terminals@.len(), terminals.len()));
    merged(merged(merged(nothing(), b), e), t)
}

/// The packages that the flags of the application screen stand for: those
/// of the chosen browsers, then editors, then terminals.
pub fn selection_from_app_flags(flags: &AppSelectionFlags) -> (out: PackageSelection)
    ensures
        out@ == app_selection(*flags, browser_table(), editor_table(), terminal_table()),
{
    let mut out = PackageSelection { pacman: Vec::new(), yay: Vec::new() };
    assert(out@.pacman =~= Seq::<Seq<char>>::empty());
    let browsers = browser_choices();
    let editors = editor_choices();
    let terminals = terminal_choices();
    merge_selection(
        &mut out,
        selection_from_flags_for(flags.browsers.as_slice(), browsers.as_slice()),
    );
    merge_selection(
        &mut out,
        selection_from_flags_for(flags.editors.as_slice(), editors.as_slice()),
    );
    merge_selection(
        &mut out,
        selection_from_flags_for(flags.terminals.as_slice(), terminals.as_slice()),
    );
    out
}

/// Whether every one of `wanted` is in `held`.
pub open spec fn all_held(held: Seq<Seq<char>>, wanted: Seq<Seq<char>>) -> bool {
    forall|i: int| 0 <= i < wanted.len() ==> held.contains(#[trigger] wanted[i])
}

/// Whether the selection holds every package of the choice, which has at
/// least one.
pub open spec fn is_selected(selection: SelectionView, choice: ChoiceView) -> bool {
    &&& all_held(selection.pacman, choice.pacman)
    &&& all_held(selection.yay, choice.yay)
    &&& (choice.pacman.len() > 0 || choice.yay.len() > 0)
}

fn holds_all(held: &Vec<String>, wanted: &Vec<String>) -> (r: bool)
    ensures
        r == all_held(texts(held@), texts(wanted@)),
{
    let mut i: usize = 0;
    while i < wanted.len()
        invariant
            i <= wanted.len(),
            forall|j: int| 0 <= j < i ==> texts(held@).contains(#[trigger] texts(wanted@)[j]),
        decreases wanted.len() - i,
    {
        if !holds(held.as_slice(), wanted[i].as_str()) {
            assert(texts(wanted@)[i as int] == wanted@[i as int]@);
            return false;
        }
        i += 1;
    }
    true
}

/// Whether the selection holds every package of the choice.
pub fn choice_selected(selection: &PackageSelection, choice: &InstallChoice) -> (r: bool)
    ensures
        r == is_selected(selection@, choice@),
{
    if !holds_all(&selection.pacman, &choice.pacman) {
        return false;
    }
    if !holds_all(&selection.yay, &choice.yay) {
        return false;
    }
    choice.pacman.len() > 0 || choice.yay.len() > 0
}

/// The labels of the choices that the selection holds, in order.
pub open spec fn selected_labels(selection: SelectionView, choices: Seq<ChoiceView>) -> Seq<
    Seq<char>,
>
    decreases choices.len(),
{
    if choices.len() == 0 {
        Seq::empty()
    } else {
        selected_labels(selection, choices.drop_last()) + (if is_selected(
            selection,
            choices.last(),
        ) {
            seq![choices.last().label]
        } else {
            Seq::empty()
        })
    }
}

/// The labels of the choices whose packages the selection holds.
pub fn labels_for_selection(selection: &PackageSelection, choices: &[InstallChoice]) -> (out: Vec<
    String,
>)
    ensures
        texts(out@) == selected_labels(selection@, choice_views(choices@)),
{
    let mut out: Vec<String> = Vec::new();
    let mut i: usize = 0;
    while i < choices.len()
        invariant
            i <= choices.len(),
            texts(out@) == selected_labels(selection@, choice_views(choices@).take(i as int)),
        decreases choices.len() - i,
    {
        proof {
            let next = choice_views(choices@).take(i + 1);
            assert(next.drop_last() =~= choice_views(choices@).take(i as int));
        }
        if choice_selected(selection, &choices[i]) {
            out.push(choices[i].label.clone());
        }
        i += 1;
    }
    assert(choice_views(choices@).take(choices.len() as int) =~= choice_views(choices@));
    out
}

/// The first `n` labels whose flag is set, in order.
pub open spec fn flagged_labels(flags: Seq<bool>, labels: Seq<Seq<char>>, n: int) -> Seq<Seq<char>>
    decreases n,
{
    if n <= 0 {
        Seq::empty()
    } else {
        flagged_labels(flags, labels, n - 1) + (if flags[n - 1] {
            seq![labels[n - 1]]
        } else {
            Seq::empty()
        })
    }
}

/// The labels whose flag is set. Flags without a label and labels without a
/// flag do not count.
pub fn labels_for_flags(flags: &[bool], labels: &[&str]) -> (out: Vec<String>)
    ensures
        texts(out@) == flagged_labels(
            flags@,
            str_texts(labels@),
            shorter(flags@.len(), labels@.len()),
        ),
{
    let n = if flags.len() <= labels.len() {
        flags.len()
    } else {
        labels.len()
    };
    let mut out: Vec<String> = Vec::new();
    let mut i: usize = 0;
    while i < n
        invariant
            i <= n,
            n <= flags.len(),
            n <= labels.len(),
            texts(out@) == flagged_labels(flags@, str_texts(labels@), i as int),
        decreases n - i,
    {
        if flags[i] {
            out.push(labels[i].to_owned());
        }
        i += 1;
    }
    out
}

fn choice(label: &str, pacman: &[&str], yay: &[&str]) -> (c: InstallChoice)
    ensures
        c@ == (ChoiceView { label: label@, pacman: str_texts(pacman@), yay: str_texts(yay@) }),
{
    let p = strings(pacman);
    let y = strings(yay);
    assert(texts(p@) =~= str_texts(pacman@));
    assert(texts(y@) =~= str_texts(yay@));
    InstallChoice { label: label.to_owned(), pacman: p, yay: y }
}

/// The labels of the compositors on offer.
pub fn compositor_labels() -> (out: [&'static str; 1])
    ensures
        out@ == seq!["Hyprland"],
{
    let out = ["Hyprland"];
    out
}

/// The browsers on offer, as plain text.
pub open spec fn browser_table() -> Seq<ChoiceView> {
    seq![
        ChoiceView {
            label: "Firefox"@,
            pacman: seq!["firefox"@, "firefox-ublock-origin"@],
            yay: Seq::empty(),
        },
        ChoiceView { label: "Chromium"@, pacman: seq!["chromium"@], yay: Seq::empty() },
        ChoiceView {
            label: "Ungoogled Chromium"@,
            pacman: Seq::empty(),
            yay: seq!["ungoogled-chromium-bin"@],
        },
        ChoiceView { label: "Helium"@, pacman: Seq::empty(), yay: seq!["helium-browser-bin"@] },
        ChoiceView { label: "Brave"@, pacman: Seq::empty(), yay: seq!["brave-bin"@] },
        ChoiceView { label: "Zen Browser"@, pacman: Seq::empty(), yay: seq!["zen-browser-bin"@] },
        ChoiceView { label: "LibreWolf"@, pacman: Seq::empty(), yay: seq!["librewolf-bin"@] },
        ChoiceView { label: "Mullvad"@, pacman: Seq::empty(), yay: seq!["mullvad-browser-bin"@] },
        ChoiceView { label: "qutebrowser"@, pacman: seq!["qutebrowser"@], yay: Seq::empty() },
    ]
}

/// The browsers on offer.
pub fn browser_choices() -> (out: Vec<InstallChoice>)
    ensures
        choice_views(out@) == browser_table(),
        out.len() == BROWSER_COUNT,
{
    let mut out: Vec<InstallChoice> = Vec::new();
    out.push(choice("Firefox", &["firefox", "firefox-ublock-origin"], &[]));
    out.push(choice("Chromium", &["chromium"], &[]));
    out.push(choice("Ungoogled Chromium", &[], &["ungoogled-chromium-bin"]));
    out.push(choice("Helium", &[], &["helium-browser-bin"]));
    out.push(choice("Brave", &[], &["brave-bin"]));
    out.push(choice("Zen Browser", &[], &["zen-browser-bin"]));
    out.push(choice("LibreWolf", &[], &["librewolf-bin"]));
    out.push(choice("Mullvad", &[], &["mullvad-browser-bin"]));
    out.push(choice("qutebrowser", &["qutebrowser"], &[]));
    proof {
        let t = browser_table();
        assert(choice_views(out@)[0].pacman =~= t[0].pacman);
        assert(choice_views(out@)[0].yay =~= t[0].yay);
        assert(choice_views(out@)[1].pacman =~= t[1].pacman);
        assert(choice_views(out@)[2].yay =~= t[2].yay);
        assert(choice_views(out@)[3].yay =~= t[3].yay);
        assert(choice_views(out@)[4].yay =~= t[4].yay);
        assert(choice_views(out@)[5].yay =~= t[5].yay);
        assert(choice_views(out@)[6].yay =~= t[6].yay);
        assert(choice_views(out@)[7].yay =~= t[7].yay);
        assert(choice_views(out@)[8].pacman =~= t[8].pacman);
    }
    out
}

/// The terminals on offer, as plain text.
pub open spec fn terminal_table() -> Seq<ChoiceView> {
    seq![
        ChoiceView { label: "Ghostty"@, pacman: seq!["ghostty"@], yay: Seq::empty() },
        ChoiceView { label: "Kitty"@, pacman: seq!["kitty"@], yay: Seq::empty() },
        ChoiceView { label: "Alacritty"@, pacman: seq!["alacritty"@], yay: Seq::empty() },
    ]
}

/// The terminals on offer.
pub fn terminal_choices() -> (out: Vec<InstallChoice>)
    ensures
        choice_views(out@) == terminal_table(),
        out.len() == TERMINAL_COUNT,
{
    let mut out: Vec<InstallChoice> = Vec::new();
    out.push(choice("Ghostty", &["ghostty"], &[]));
    out.push(choice("Kitty", &["kitty"], &[]));
    out.push(choice("Alacritty", &["alacritty"], &[]));
    proof {
        let t = terminal_table();
        assert(choice_views(out@)[0].pacman =~= t[0].pacman);
        assert(choice_views(out@)[0].yay =~= t[0].yay);
        assert(choice_views(out@)[1].pacman =~= t[1].pacman);
        assert(choice_views(out@)[2].pacman =~= t[2].pacman);
    }
    out
}

/// The editors on offer, as plain text.
pub open spec fn editor_table() -> Seq<ChoiceView> {
    seq![
        ChoiceView { label: "Zed"@, pacman: seq!["zed"@], yay: Seq::empty() },
        ChoiceView { label: "Cursor"@, pacman: Seq::empty(), yay: seq!["cursor-bin"@] },
        ChoiceView {
            label: "Visual Studio Code"@,
            pacman: Seq::empty(),
            yay: seq!["visual-studio-code-bin"@],
        },
        ChoiceView { label: "VSCodium"@, pacman: Seq::empty(), yay: seq!["vscodium-bin"@] },
        ChoiceView { label: "Sublime Text 4"@, pacman: Seq::empty(), yay: seq!["sublime-text-4"@] },
    ]
}

/// The editors on offer.
pub fn editor_choices() -> (out: Vec<InstallChoice>)
    ensures
        choice_views(out@) == editor_table(),
        out.len() == EDITOR_COUNT,
{
    let mut out: Vec<InstallChoice> = Vec::new();
    out.push(choice("Zed", &["zed"], &[]));
    out.push(choice("Cursor", &[], &["cursor-bin"]));
    out.push(choice("Visual Studio Code", &[], &["visual-studio-code-bin"]));
    out.push(choice("VSCodium", &[], &["vscodium-bin"]));
    out.push(choice("Sublime Text 4", &[], &["sublime-text-4"]));
    proof {
        let t = editor_table();
        assert(choice_views(out@)[0].pacman =~= t[0].pacman);
        assert(choice_views(out@)[0].yay =~= t[0].yay);
        assert(choice_views(out@)[1].yay =~= t[1].yay);
        assert(choice_views(out@)[2].yay =~= t[2].yay);
        assert(choice_views(out@)[3].yay =~= t[3].yay);
        assert(choice_views(out@)[4].yay =~= t[4].yay);
    }
    out
}

} // verus!
