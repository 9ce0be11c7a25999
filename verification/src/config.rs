//! The installer's settings: which packages every installation gets and
//! which applications are on offer, and what makes such settings valid.

use crate::text::{append_str, decimal, from_chars, push_decimal, to_chars, trim, trim_chars};
use vstd::prelude::*;

verus! {

/// The installer's settings.
#[derive(Debug)]
pub struct Config {
    pub packages: PackagesConfig,
    pub selections: SelectionsConfig,
}

/// The packages that every installation gets.
#[derive(Debug)]
pub struct PackagesConfig {
    pub required: Vec<String>,
    pub hyprland: Vec<String>,
}

/// The applications on offer.
#[derive(Debug)]
pub struct SelectionsConfig {
    pub compositors: Vec<String>,
    pub browsers: Vec<ChoiceConfig>,
    pub editors: Vec<ChoiceConfig>,
    pub terminals: Vec<ChoiceConfig>,
}

/// One application on offer.
#[derive(Debug)]
pub struct ChoiceConfig {
    /// The name under which it is offered.
    pub label: String,
    /// The packages it needs from the distribution's repositories.
    pub pacman: Vec<String>,
    /// The packages it needs from the user repository.
    pub yay: Vec<String>,
}

/// What is wrong with the choice at index `idx` of `section`, if anything:
/// a label of whitespace, or no package at all.
pub open spec fn choice_fault(section: Seq<char>, idx: int, choice: ChoiceConfig) -> Option<
    Seq<char>,
> {
    if trim(choice.label@).len() == 0 {
        Some(section + "["@ + decimal(idx as nat) + "].label must not be empty"@)
    } else if choice.pacman@.len() == 0 && choice.yay@.len() == 0 {
        Some(
            section + "["@ + decimal(idx as nat)
                + "] must include at least one pacman or yay package"@,
        )
    } else {
        None
    }
}

/// The fault of the first of the choices from index `from` on that has one.
pub open spec fn first_fault(section: Seq<char>, choices: Seq<ChoiceConfig>, from: int) -> Option<
    Seq<char>,
>
    decreases choices.len() - from,
{
    if from < 0 || from >= choices.len() {
        None
    } else if choice_fault(section, from, choices[from]) is Some {
        choice_fault(section, from, choices[from])
    } else {
        first_fault(section, choices, from + 1)
    }
}

/// The text of the error of a result, if it is one.
pub open spec fn fault_of(r: Result<(), String>) -> Option<Seq<char>> {
    match r {
        Ok(_) => None,
        Err(e) => Some(e@),
    }
}

/// Checks the choices of `section`: each needs a label and a package.
/// The error names the first choice that is at fault.
pub fn validate_choices(section: &str, choices: &[ChoiceConfig]) -> (r: Result<(), String>)
    ensures
        fault_of(r) == first_fault(section@, choices@, 0),
{
    let mut idx: usize = 0;
    while idx < choices.len()
        invariant
            idx <= choices.len(),
            first_fault(section@, choices@, idx as int) == first_fault(section@, choices@, 0),
        decreases choices.len() - idx,
    {
        let choice = &choices[idx];
        let blank = trim_chars(&to_chars(choice.label.as_str())).len() == 0;
        if blank || (choice.pacman.len() == 0 && choice.yay.len() == 0) {
            let mut out = to_chars(section);
            append_str(&mut out, "[");
            push_decimal(&mut out, idx as u64);
            if blank {
                append_str(&mut out, "].label must not be empty");
            } else {
                append_str(&mut out, "] must include at least one pacman or yay package");
            }
            return Err(from_chars(&out));
        }
        idx += 1;
    }
    Ok(())
}

/// What is wrong with the settings, if anything: the first list that is
/// empty, and else the first choice that is at fault, browsers before
/// editors before terminals.
pub open spec fn config_fault(cfg: Config) -> Option<Seq<char>> {
    if cfg.packages.required@.len() == 0 {
        Some("packages.required must not be empty"@)
    } else if cfg.packages.hyprland@.len() == 0 {
        Some("packages.hyprland must not be empty"@)
    } else if cfg.selections.compositors@.len() == 0 {
        Some("selections.compositors must not be empty"@)
    } else if cfg.selections.browsers@.len() == 0 {
        Some("selections.browsers must not be empty"@)
    } else if cfg.selections.editors@.len() == 0 {
        Some("selections.editors must not be empty"@)
    } else if cfg.selections.terminals@.len() == 0 {
        Some("selections.terminals must not be empty"@)
    } else if first_fault("selections.browsers"@, cfg.selections.browsers@, 0) is Some {
        first_fault("selections.browsers"@, cfg.selections.browsers@, 0)
    } else if first_fault("selections.editors"@, cfg.selections.editors@, 0) is Some {
        first_fault("selections.editors"@, cfg.selections.editors@, 0)
    } else {
        first_fault("selections.terminals"@, cfg.selections.terminals@, 0)
    }
}

/// Checks the settings: no list may be empty, and every choice needs a
/// label and a package.
pub fn validate_config(cfg: &Config) -> (r: Result<(), String>)
    ensures
        fault_of(r) == config_fault(*cfg),
{
    if cfg.packages.required.len() == 0 {
        return Err("packages.required must not be empty".to_owned());
    }
    if cfg.packages.hyprland.len() == 0 {
        return Err("packages.hyprland must not be empty".to_owned());
    }
    if cfg.selections.compositors.len() == 0 {
        return Err("selections.compositors must not be empty".to_owned());
    }
    if cfg.selections.browsers.len() == 0 {
        return Err("selections.browsers must not be empty".to_owned());
    }
    if cfg.selections.editors.len() == 0 {
        return Err("selections.editors must not be empty".to_owned());
    }
    if cfg.selections.terminals.len() == 0 {
        return Err("selections.terminals must not be empty".to_owned());
    }
    match validate_choices("selections.browsers", cfg.selections.browsers.as_slice()) {
        Err(e) => {
            return Err(e);
        },
        Ok(_) => {},
    }
    match validate_choices("selections.editors", cfg.selections.editors.as_slice()) {
        Err(e) => {
            return Err(e);
        },
        Ok(_) => {},
    }
    validate_choices("selections.terminals", cfg.selections.terminals.as_slice())
}

} // verus!
