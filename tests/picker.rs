use hoard_gui::command::{CommandTrove, HoardCommand};
use hoard_gui::controller::{step, Event, Outcome};
use hoard_gui::state::Key;
use hoard_gui::text::{drop_last_char, parameter_count, substitute_parameters, text_contains};
use hoard_gui::{DrawState, State};

fn cmd(name: &str, namespace: &str, command: &str, description: &str) -> HoardCommand {
    HoardCommand {
        name: name.to_string(),
        namespace: namespace.to_string(),
        command: command.to_string(),
        description: description.to_string(),
    }
}

fn sample_trove() -> CommandTrove {
    CommandTrove {
        commands: vec![
            cmd("list", "shell", "ls -la", "list files"),
            cmd("copy", "shell", "cp # /tmp", "copy a file"),
            cmd("status", "git", "git status", "show the work tree"),
        ],
    }
}

fn start(trove: &CommandTrove) -> (State, Vec<String>) {
    let tabs = trove.namespace_tabs();
    let state = State::new(&trove.commands, &tabs, "#".to_string());
    (state, tabs)
}

fn press(state: &mut State, key: Key, trove: &CommandTrove, tabs: &Vec<String>) -> Outcome {
    step(state, Event::Key(key), &trove.commands, tabs)
}

fn type_text(state: &mut State, text: &str, trove: &CommandTrove, tabs: &Vec<String>) {
    for c in text.chars() {
        assert_eq!(press(state, Key::Char(c), trove, tabs), Outcome::Continue);
    }
}

#[test]
fn new_state_lists_every_command() {
    let trove = sample_trove();
    let (state, tabs) = start(&trove);
    assert_eq!(tabs, vec!["All".to_string(), "shell".to_string(), "git".to_string()]);
    assert_eq!(state.commands.len(), 3);
    assert_eq!(state.command_list_state, Some(0));
    assert_eq!(state.namespace_tab_state, Some(0));
    assert_eq!(state.draw_state, DrawState::Search);
    assert!(state.selected_command.is_none());
    assert!(!state.should_exit);
}

#[test]
fn new_state_on_empty_trove_has_no_cursor() {
    let trove = CommandTrove { commands: vec![] };
    let (state, tabs) = start(&trove);
    assert_eq!(tabs, vec!["All".to_string()]);
    assert_eq!(state.command_list_state, None);
}

#[test]
fn one_screen_and_pending_command_after_every_key() {
    let trove = sample_trove();
    let (mut state, tabs) = start(&trove);
    let keys = vec![
        Key::Char('c'),
        Key::Down,
        Key::F(1),
        Key::Char('x'),
        Key::Backspace,
        Key::Down,
        Key::Enter,
        Key::Char('f'),
        Key::Esc,
        Key::Right,
        Key::Up,
        Key::Left,
        Key::Tab,
        Key::BackTab,
        Key::Down,
        Key::Enter,
        Key::Backspace,
        Key::Other,
    ];
    for key in keys {
        let outcome = press(&mut state, key, &trove, &tabs);
        assert_eq!(outcome, Outcome::Continue);
        let active = [DrawState::Search, DrawState::ParameterInput, DrawState::Help]
            .iter()
            .filter(|d| **d == state.draw_state)
            .count();
        assert_eq!(active, 1);
        assert_eq!(
            state.selected_command.is_some(),
            state.draw_state == DrawState::ParameterInput
        );
    }
}

#[test]
fn navigation_on_empty_list_keeps_cursor() {
    let trove = sample_trove();
    let (mut state, tabs) = start(&trove);
    type_text(&mut state, "zzz", &trove, &tabs);
    assert!(state.commands.is_empty());
    assert_eq!(state.command_list_state, None);
    for key in [Key::Up, Key::Down, Key::Up, Key::Down] {
        assert_eq!(press(&mut state, key, &trove, &tabs), Outcome::Continue);
        assert_eq!(state.command_list_state, None);
    }
    assert_eq!(press(&mut state, Key::Enter, &trove, &tabs), Outcome::Continue);
}

#[test]
fn cursor_stops_at_both_ends() {
    let trove = sample_trove();
    let (mut state, tabs) = start(&trove);
    press(&mut state, Key::Up, &trove, &tabs);
    assert_eq!(state.command_list_state, Some(0));
    for _ in 0..5 {
        press(&mut state, Key::Down, &trove, &tabs);
    }
    assert_eq!(state.command_list_state, Some(2));
}

#[test]
fn narrowing_the_list_clamps_the_cursor() {
    let trove = sample_trove();
    let (mut state, tabs) = start(&trove);
    press(&mut state, Key::Down, &trove, &tabs);
    press(&mut state, Key::Down, &trove, &tabs);
    assert_eq!(state.command_list_state, Some(2));
    type_text(&mut state, "file", &trove, &tabs);
    assert_eq!(state.commands.len(), 2);
    assert_eq!(state.command_list_state, Some(1));
}

#[test]
fn projection_keeps_encounter_order() {
    let values = vec!["a".to_string(), "b".to_string(), "a".to_string()];
    let r = substitute_parameters(&"cp # # #".to_string(), &"#".to_string(), &values);
    assert_eq!(r, "cp a b a");
    let values = vec!["x".to_string(), "y".to_string(), "z".to_string()];
    let r = substitute_parameters(&"cp # # #".to_string(), &"#".to_string(), &values);
    assert_eq!(r, "cp x y z");
}

#[test]
fn each_occurrence_of_a_repeated_token_takes_the_next_value() {
    let values = vec!["a".to_string(), "b".to_string()];
    let template = "cp {{1}} {{2}} {{1}}".to_string();
    let token = "{{1}}".to_string();
    assert_eq!(parameter_count(&template, &token), 2);
    assert_eq!(substitute_parameters(&template, &token, &values), "cp a {{2}} b");
}

#[test]
fn substituted_values_are_not_searched_again() {
    let values = vec!["##".to_string(), "z".to_string()];
    let r = substitute_parameters(&"#-#".to_string(), &"#".to_string(), &values);
    assert_eq!(r, "##-z");
}

#[test]
fn parameter_count_exact_values() {
    let token = "#".to_string();
    assert_eq!(parameter_count(&"ls".to_string(), &token), 0);
    assert_eq!(parameter_count(&"".to_string(), &token), 0);
    assert_eq!(parameter_count(&"# # #".to_string(), &token), 3);
    assert_eq!(parameter_count(&"aaaa".to_string(), &"aa".to_string()), 2);
    assert_eq!(parameter_count(&"aaa".to_string(), &"aa".to_string()), 1);
    assert_eq!(parameter_count(&"abc".to_string(), &"".to_string()), 0);
}

#[test]
fn text_contains_exact_values() {
    assert!(text_contains(&"git status".to_string(), &"stat".to_string()));
    assert!(text_contains(&"git".to_string(), &"".to_string()));
    assert!(!text_contains(&"git".to_string(), &"gitk".to_string()));
    assert!(!text_contains(&"Git".to_string(), &"git".to_string()));
}

#[test]
fn drop_last_char_exact_values() {
    assert_eq!(drop_last_char(&"abc".to_string()), "ab");
    assert_eq!(drop_last_char(&"".to_string()), "");
    assert_eq!(drop_last_char(&"é".to_string()), "");
}

#[test]
fn command_without_parameters_is_selected_at_once() {
    let trove = sample_trove();
    let (mut state, tabs) = start(&trove);
    let outcome = press(&mut state, Key::Enter, &trove, &tabs);
    assert_eq!(outcome, Outcome::Selected(cmd("list", "shell", "ls -la", "list files")));
    assert_eq!(state.draw_state, DrawState::Search);
}

#[test]
fn cancel_from_search_with_empty_query() {
    let trove = sample_trove();
    let (mut state, tabs) = start(&trove);
    assert_eq!(press(&mut state, Key::Esc, &trove, &tabs), Outcome::Cancelled);
    assert!(state.should_exit);
}

#[test]
fn ctrl_c_cancels_from_search() {
    let trove = sample_trove();
    let (mut state, tabs) = start(&trove);
    type_text(&mut state, "co", &trove, &tabs);
    assert_eq!(press(&mut state, Key::Ctrl('c'), &trove, &tabs), Outcome::Cancelled);
}

#[test]
fn narrowing_then_one_parameter_returns_substituted_text() {
    let trove = sample_trove();
    let (mut state, tabs) = start(&trove);
    type_text(&mut state, "co", &trove, &tabs);
    assert_eq!(state.input, "co");
    assert_eq!(state.commands.len(), 1);
    assert_eq!(state.command_list_state, Some(0));
    assert_eq!(press(&mut state, Key::Enter, &trove, &tabs), Outcome::Continue);
    assert_eq!(state.draw_state, DrawState::ParameterInput);
    assert_eq!(state.provided_parameter_count, 0);
    type_text(&mut state, "a.txt", &trove, &tabs);
    assert_eq!(state.parameter_input, "a.txt");
    let outcome = press(&mut state, Key::Enter, &trove, &tabs);
    assert_eq!(outcome, Outcome::Selected(cmd("copy", "shell", "cp a.txt /tmp", "copy a file")));
}

#[test]
fn two_parameters_are_asked_in_turn() {
    let trove = CommandTrove { commands: vec![cmd("move", "shell", "mv # #", "move a file")] };
    let (mut state, tabs) = start(&trove);
    press(&mut state, Key::Enter, &trove, &tabs);
    type_text(&mut state, "ab", &trove, &tabs);
    press(&mut state, Key::Backspace, &trove, &tabs);
    assert_eq!(press(&mut state, Key::Enter, &trove, &tabs), Outcome::Continue);
    assert_eq!(state.provided_parameter_count, 1);
    assert_eq!(state.parameter_values, vec!["a".to_string()]);
    assert_eq!(state.parameter_input, "");
    type_text(&mut state, "b", &trove, &tabs);
    let outcome = press(&mut state, Key::Enter, &trove, &tabs);
    assert_eq!(outcome, Outcome::Selected(cmd("move", "shell", "mv a b", "move a file")));
    assert_eq!(state.draw_state, DrawState::Search);
    assert!(state.selected_command.is_none());
}

#[test]
fn esc_in_parameter_input_goes_back_to_search() {
    let trove = sample_trove();
    let (mut state, tabs) = start(&trove);
    press(&mut state, Key::Down, &trove, &tabs);
    press(&mut state, Key::Enter, &trove, &tabs);
    assert_eq!(state.draw_state, DrawState::ParameterInput);
    type_text(&mut state, "x", &trove, &tabs);
    assert_eq!(press(&mut state, Key::Esc, &trove, &tabs), Outcome::Continue);
    assert_eq!(state.draw_state, DrawState::Search);
    assert!(state.selected_command.is_none());
    assert_eq!(state.parameter_input, "");
    assert_eq!(state.command_list_state, Some(1));
}

#[test]
fn ctrl_d_in_parameter_input_cancels() {
    let trove = sample_trove();
    let (mut state, tabs) = start(&trove);
    press(&mut state, Key::Down, &trove, &tabs);
    press(&mut state, Key::Enter, &trove, &tabs);
    assert_eq!(press(&mut state, Key::Ctrl('d'), &trove, &tabs), Outcome::Cancelled);
}

#[test]
fn help_opens_and_any_key_returns() {
    let trove = sample_trove();
    let (mut state, tabs) = start(&trove);
    assert_eq!(press(&mut state, Key::F(1), &trove, &tabs), Outcome::Continue);
    assert_eq!(state.draw_state, DrawState::Help);
    assert_eq!(press(&mut state, Key::Esc, &trove, &tabs), Outcome::Continue);
    assert_eq!(state.draw_state, DrawState::Search);
    assert!(!state.should_exit);
}

#[test]
fn namespace_tabs_scope_the_list() {
    let trove = sample_trove();
    let (mut state, tabs) = start(&trove);
    press(&mut state, Key::Right, &trove, &tabs);
    assert_eq!(state.namespace_tab_state, Some(1));
    assert_eq!(state.commands.len(), 2);
    press(&mut state, Key::Right, &trove, &tabs);
    assert_eq!(state.namespace_tab_state, Some(2));
    assert_eq!(state.commands, vec![cmd("status", "git", "git status", "show the work tree")]);
    press(&mut state, Key::Right, &trove, &tabs);
    assert_eq!(state.namespace_tab_state, Some(2));
    press(&mut state, Key::Left, &trove, &tabs);
    press(&mut state, Key::Left, &trove, &tabs);
    press(&mut state, Key::Left, &trove, &tabs);
    assert_eq!(state.namespace_tab_state, Some(0));
    assert_eq!(state.commands.len(), 3);
}

#[test]
fn namespaces_are_distinct_in_first_order() {
    let trove = CommandTrove {
        commands: vec![
            cmd("a", "net", "ping", ""),
            cmd("b", "git", "git log", ""),
            cmd("c", "net", "curl", ""),
        ],
    };
    assert_eq!(trove.namespaces(), vec!["net".to_string(), "git".to_string()]);
}

#[test]
fn other_events_change_nothing() {
    let trove = sample_trove();
    let (mut state, tabs) = start(&trove);
    assert_eq!(step(&mut state, Event::Other, &trove.commands, &tabs), Outcome::Continue);
    assert_eq!(state.input, "");
    assert_eq!(state.command_list_state, Some(0));
    assert_eq!(state.draw_state, DrawState::Search);
}

#[test]
fn backspace_widens_the_list_again() {
    let trove = sample_trove();
    let (mut state, tabs) = start(&trove);
    type_text(&mut state, "git", &trove, &tabs);
    assert_eq!(state.commands.len(), 1);
    press(&mut state, Key::Backspace, &trove, &tabs);
    press(&mut state, Key::Backspace, &trove, &tabs);
    press(&mut state, Key::Backspace, &trove, &tabs);
    press(&mut state, Key::Backspace, &trove, &tabs);
    assert_eq!(state.input, "");
    assert_eq!(state.commands.len(), 3);
}
