use nebula_installer::config::{
    validate_choices, validate_config, ChoiceConfig, Config, PackagesConfig, SelectionsConfig,
};

fn names(items: &[&str]) -> Vec<String> {
    items.iter().map(|s| s.to_string()).collect()
}

fn choice(label: &str, pacman: &[&str], yay: &[&str]) -> ChoiceConfig {
    ChoiceConfig { label: label.to_string(), pacman: names(pacman), yay: names(yay) }
}

fn good() -> Config {
    Config {
        packages: PackagesConfig { required: names(&["base"]), hyprland: names(&["hyprland"]) },
        selections: SelectionsConfig {
            compositors: names(&["Hyprland"]),
            browsers: vec![choice("Firefox", &["firefox"], &[])],
            editors: vec![choice("Zed", &["zed"], &[])],
            terminals: vec![choice("Kitty", &[], &["kitty-git"])],
        },
    }
}

#[test]
fn a_good_config_passes() {
    assert_eq!(validate_config(&good()), Ok(()));
}

#[test]
fn empty_lists_are_named() {
    let mut c = good();
    c.selections.terminals.clear();
    assert_eq!(validate_config(&c), Err("selections.terminals must not be empty".to_string()));
    c.selections.editors.clear();
    assert_eq!(validate_config(&c), Err("selections.editors must not be empty".to_string()));
    c.selections.browsers.clear();
    assert_eq!(validate_config(&c), Err("selections.browsers must not be empty".to_string()));
    c.selections.compositors.clear();
    assert_eq!(validate_config(&c), Err("selections.compositors must not be empty".to_string()));
    c.packages.hyprland.clear();
    assert_eq!(validate_config(&c), Err("packages.hyprland must not be empty".to_string()));
    c.packages.required.clear();
    assert_eq!(validate_config(&c), Err("packages.required must not be empty".to_string()));
}

#[test]
fn faulty_choices_are_named() {
    let mut c = good();
    c.selections.terminals.push(choice("  ", &["x"], &[]));
    assert_eq!(
        validate_config(&c),
        Err("selections.terminals[1].label must not be empty".to_string())
    );
    c.selections.editors.push(choice("Empty", &[], &[]));
    assert_eq!(
        validate_config(&c),
        Err("selections.editors[1] must include at least one pacman or yay package".to_string())
    );
    c.selections.browsers.insert(0, choice("", &[], &[]));
    assert_eq!(
        validate_config(&c),
        Err("selections.browsers[0].label must not be empty".to_string())
    );
}

#[test]
fn the_first_fault_is_reported() {
    let mut choices: Vec<ChoiceConfig> = (0..12).map(|i| choice(&format!("c{}", i), &["p"], &[])).collect();
    assert_eq!(validate_choices("s", &choices), Ok(()));
    choices[11] = choice("late", &[], &[]);
    choices[10] = choice("", &["p"], &[]);
    assert_eq!(validate_choices("s", &choices), Err("s[10].label must not be empty".to_string()));
    assert_eq!(validate_choices("s", &[]), Ok(()));
}
