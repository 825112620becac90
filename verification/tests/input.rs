use emulsion::input_handling::BindingTable;
use emulsion::input_handling::CustomCommand;
use emulsion::input_handling::EnvVar;
use emulsion::input_handling::Modifiers;
use emulsion::input_handling::Platform;
use emulsion::input_handling::action_triggered;
use emulsion::input_handling::char_to_input_key;
use emulsion::input_handling::default_bindings;
use emulsion::input_handling::keys_triggered;
use emulsion::input_handling::substitute_command_parameters;
use emulsion::input_handling::triggered_commands;

fn no_mods() -> Modifiers {
    Modifiers { alt: false, ctrl: false, logo: false }
}

fn ctrl() -> Modifiers {
    Modifiers { alt: false, ctrl: true, logo: false }
}

fn ctrl_alt() -> Modifiers {
    Modifiers { alt: true, ctrl: true, logo: false }
}

fn chords(list: &[&str]) -> Vec<String> {
    list.iter().map(|s| s.to_string()).collect()
}

#[test]
fn ctrl_s_matches_exact_modifier_set() {
    let keys = chords(&["Ctrl+S"]);
    assert!(keys_triggered(&keys, "s", ctrl(), Platform::Other));
}

#[test]
fn ctrl_s_rejects_superset_of_modifiers() {
    let keys = chords(&["Ctrl+S"]);
    assert!(!keys_triggered(&keys, "s", ctrl_alt(), Platform::Other));
}

#[test]
fn plain_key_rejects_held_modifier() {
    let keys = chords(&["S"]);
    assert!(keys_triggered(&keys, "s", no_mods(), Platform::Other));
    assert!(!keys_triggered(&keys, "s", ctrl(), Platform::Other));
}

#[test]
fn chords_are_case_insensitive_and_trimmed() {
    let keys = chords(&[" CTRL +  S "]);
    assert!(keys_triggered(&keys, "s", ctrl(), Platform::Other));
}

#[test]
fn pressed_key_is_compared_case_insensitively() {
    let keys = chords(&["S"]);
    assert!(keys_triggered(&keys, "S", no_mods(), Platform::Other));
    let keys = chords(&["Ctrl+s"]);
    assert!(keys_triggered(&keys, "S", ctrl(), Platform::Other));
}

#[test]
fn cmdctrl_resolves_by_platform() {
    let keys = chords(&["CmdCtrl+C"]);
    let logo = Modifiers { alt: false, ctrl: false, logo: true };
    assert!(keys_triggered(&keys, "c", ctrl(), Platform::Other));
    assert!(!keys_triggered(&keys, "c", logo, Platform::Other));
    assert!(keys_triggered(&keys, "c", logo, Platform::MacOs));
    assert!(!keys_triggered(&keys, "c", ctrl(), Platform::MacOs));
}

#[test]
fn unknown_modifier_tokens_are_ignored() {
    let keys = chords(&["Shift+S"]);
    assert!(keys_triggered(&keys, "s", no_mods(), Platform::Other));
    assert!(!keys_triggered(&keys, "s", ctrl(), Platform::Other));
}

#[test]
fn second_chord_in_list_matches() {
    let keys = chords(&["F11", "Return"]);
    assert!(keys_triggered(&keys, "return", no_mods(), Platform::Other));
}

#[test]
fn empty_chord_list_triggers_nothing() {
    let keys: Vec<String> = Vec::new();
    assert!(!keys_triggered(&keys, "s", no_mods(), Platform::Other));
}

#[test]
fn wrong_key_does_not_trigger() {
    let keys = chords(&["Ctrl+S"]);
    assert!(!keys_triggered(&keys, "a", ctrl(), Platform::Other));
}

#[test]
fn user_binding_overrides_default() {
    let defaults = default_bindings();
    let mut user = BindingTable::new();
    user.insert("img_next".to_string(), chords(&["N"]));
    assert!(action_triggered(Some(&user), &defaults, "img_next", "n", no_mods(), Platform::Other));
    assert!(!action_triggered(Some(&user), &defaults, "img_next", "d", no_mods(), Platform::Other));
}

#[test]
fn absent_user_entry_falls_back_to_default() {
    let defaults = default_bindings();
    let mut user = BindingTable::new();
    user.insert("img_prev".to_string(), chords(&["B"]));
    // "img_next" is not in the user table, so the default list D/Right/PageDown applies.
    assert!(action_triggered(Some(&user), &defaults, "img_next", "d", no_mods(), Platform::Other));
    assert!(action_triggered(
        Some(&user),
        &defaults,
        "img_next",
        "pagedown",
        no_mods(),
        Platform::Other
    ));
}

#[test]
fn newer_binding_shadows_older_one() {
    let defaults = default_bindings();
    let mut user = BindingTable::new();
    user.insert("img_next".to_string(), chords(&["N"]));
    user.insert("img_next".to_string(), chords(&["M"]));
    assert!(action_triggered(Some(&user), &defaults, "img_next", "m", no_mods(), Platform::Other));
    assert!(!action_triggered(Some(&user), &defaults, "img_next", "n", no_mods(), Platform::Other));
}

#[test]
fn unknown_action_triggers_nothing() {
    let defaults = default_bindings();
    let user = BindingTable::new();
    assert!(!action_triggered(
        Some(&user),
        &defaults,
        "no_such_action",
        "s",
        no_mods(),
        Platform::Other
    ));
    assert!(!action_triggered(None, &defaults, "no_such_action", "s", no_mods(), Platform::Other));
}

#[test]
fn default_table_contents() {
    let defaults = default_bindings();
    assert!(action_triggered(None, &defaults, "toggle_fullscreen", "f11", no_mods(), Platform::Other));
    assert!(action_triggered(None, &defaults, "escape", "q", no_mods(), Platform::Other));
    let alt = Modifiers { alt: true, ctrl: false, logo: false };
    assert!(action_triggered(None, &defaults, "play_anim", "v", alt, Platform::Other));
    assert!(!action_triggered(None, &defaults, "play_anim", "v", no_mods(), Platform::Other));
    assert!(action_triggered(None, &defaults, "img_copy", "c", ctrl(), Platform::Other));
}

#[test]
fn char_to_input_key_names_special_characters() {
    assert_eq!(char_to_input_key(" "), "space");
    assert_eq!(char_to_input_key("+"), "add");
    assert_eq!(char_to_input_key("-"), "subtract");
    assert_eq!(char_to_input_key("q"), "q");
}

#[test]
fn substitution_replaces_every_occurrence() {
    let vars = vec![
        ("${img}".to_string(), "/tmp/a.png".to_string()),
        ("${folder}".to_string(), "/tmp".to_string()),
    ];
    assert_eq!(
        substitute_command_parameters("show ${img} in ${folder}; backup ${img}", &vars),
        "show /tmp/a.png in /tmp; backup /tmp/a.png"
    );
}

#[test]
fn substitution_never_rescans_its_own_output() {
    let vars = vec![("ab".to_string(), "abab".to_string())];
    assert_eq!(substitute_command_parameters("abab", &vars), "abababab");
}

#[test]
fn substitution_without_variables_is_identity() {
    let vars: Vec<(String, String)> = Vec::new();
    assert_eq!(substitute_command_parameters("plain text", &vars), "plain text");
}

#[test]
fn triggered_commands_prepares_only_matches() {
    let commands = vec![
        CustomCommand {
            input: chords(&["Ctrl+E"]),
            program: "editor".to_string(),
            args: Some(vec!["--open".to_string(), "${img}".to_string()]),
            envs: Some(vec![EnvVar { name: "DIR".to_string(), value: "${folder}".to_string() }]),
        },
        CustomCommand {
            input: chords(&["Ctrl+G"]),
            program: "gimp".to_string(),
            args: None,
            envs: None,
        },
    ];
    let prepared =
        triggered_commands(&commands, "e", ctrl(), Platform::Other, "/pics/cat.png", "/pics");
    assert_eq!(prepared.len(), 1);
    assert_eq!(prepared[0].program, "editor");
    assert_eq!(prepared[0].args, vec!["--open".to_string(), "/pics/cat.png".to_string()]);
    // The environment value is carried over verbatim, not substituted.
    assert_eq!(prepared[0].envs, vec![("DIR".to_string(), "${folder}".to_string())]);
}

#[test]
fn triggered_commands_empty_when_nothing_matches() {
    let commands = vec![CustomCommand {
        input: chords(&["Ctrl+E"]),
        program: "editor".to_string(),
        args: None,
        envs: None,
    }];
    let prepared =
        triggered_commands(&commands, "e", no_mods(), Platform::Other, "/pics/cat.png", "/pics");
    assert!(prepared.is_empty());
}
