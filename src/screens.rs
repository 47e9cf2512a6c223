//! The input handlers of the Search, ParameterInput and Help screens. Each
//! handler's effect is stated as a relation between the state before and
//! after one key, and the command it hands back, if any.
use vstd::prelude::*;
use crate::command::{filter_commands, filtered, HoardCommand};
use crate::state::{
    clamp_cursor, cursor_down, cursor_up, DrawState, Key, State,
};
use crate::text::{
    drop_last_char, parameter_count, project, push_char, substitute_parameters, token_count, views,
};

verus! {

/// The key leaves the picker without a command: Esc, Ctrl-C or Ctrl-D.
pub open spec fn is_quit(key: Key) -> bool {
    key == Key::Esc || key == Key::Ctrl('c') || key == Key::Ctrl('d')
}

/// The key opens the Help screen from the Search screen: F1.
pub open spec fn is_help(key: Key) -> bool {
    key == Key::F(1)
}

/// `new` agrees with `old` on everything the screens show or change.
pub open spec fn unchanged(old: State, new: State) -> bool {
    &&& new.same_search(&old)
    &&& new.same_parameters(&old)
    &&& new.draw_state == old.draw_state
    &&& new.should_exit == old.should_exit
}

/// `new` is `old` with the exit flag set.
pub open spec fn quit(old: State, new: State) -> bool {
    &&& new.same_search(&old)
    &&& new.same_parameters(&old)
    &&& new.draw_state == old.draw_state
    &&& new.should_exit
}

/// `new` is `old` with the query `q` and tab `t`, the list filtered anew and
/// the cursor brought back within it.
pub open spec fn refiltered(
    old: State,
    new: State,
    q: Seq<char>,
    t: usize,
    trove: Seq<HoardCommand>,
    tabs: Seq<Seq<char>>,
) -> bool {
    &&& new.input@ == q
    &&& new.namespace_tab_state == Some(t)
    &&& new.commands@ == filtered(trove, q, tabs, t as int)
    &&& new.command_list_state == clamp_cursor(old.command_list_state, new.commands@.len())
    &&& new.same_parameters(&old)
    &&& new.draw_state == old.draw_state
    &&& new.should_exit == old.should_exit
}

/// The text `s` after a backspace.
pub open spec fn backspaced(s: Seq<char>) -> Seq<char> {
    if s.len() == 0 {
        s
    } else {
        s.drop_last()
    }
}

/// What one key does on the Search screen.
pub open spec fn search_step(
    old: State,
    new: State,
    key: Key,
    r: Option<HoardCommand>,
    trove: Seq<HoardCommand>,
    tabs: Seq<Seq<char>>,
) -> bool {
    let tab = old.namespace_tab_state.unwrap();
    &&& new.parameter_token@ == old.parameter_token@
    &&& if is_quit(key) {
        r is None && quit(old, new)
    } else if is_help(key) {
        &&& r is None
        &&& new.same_search(&old)
        &&& new.same_parameters(&old)
        &&& new.should_exit == old.should_exit
        &&& new.draw_state == DrawState::Help
    } else {
        match key {
            Key::Up => {
                &&& r is None
                &&& new.command_list_state == cursor_up(old.command_list_state)
                &&& new.input@ == old.input@
                &&& new.commands@ == old.commands@
                &&& new.namespace_tab_state == old.namespace_tab_state
                &&& new.same_parameters(&old)
                &&& new.draw_state == old.draw_state
                &&& new.should_exit == old.should_exit
            },
            Key::Down => {
                &&& r is None
                &&& new.command_list_state == cursor_down(
                    old.command_list_state,
                    old.commands@.len(),
                )
                &&& new.input@ == old.input@
                &&& new.commands@ == old.commands@
                &&& new.namespace_tab_state == old.namespace_tab_state
                &&& new.same_parameters(&old)
                &&& new.draw_state == old.draw_state
                &&& new.should_exit == old.should_exit
            },
            Key::Left | Key::BackTab => r is None && refiltered(
                old,
                new,
                old.input@,
                cursor_up(old.namespace_tab_state).unwrap(),
                trove,
                tabs,
            ),
            Key::Right | Key::Tab => r is None && refiltered(
                old,
                new,
                old.input@,
                cursor_down(old.namespace_tab_state, tabs.len()).unwrap(),
                trove,
                tabs,
            ),
            Key::Char(c) => r is None && refiltered(old, new, old.input@.push(c), tab, trove, tabs),
            Key::Backspace => r is None && refiltered(
                old,
                new,
                backspaced(old.input@),
                tab,
                trove,
                tabs,
            ),
            Key::Enter => match old.command_list_state {
                None => r is None && unchanged(old, new),
                Some(i) => {
                    let c = old.commands@[i as int];
                    if token_count(c.command@, old.parameter_token@) == 0 {
                        r == Some(c) && unchanged(old, new)
                    } else {
                        &&& r is None
                        &&& new.draw_state == DrawState::ParameterInput
                        &&& new.selected_command == Some(c)
                        &&& new.parameter_values@.len() == 0
                        &&& new.provided_parameter_count == 0
                        &&& new.parameter_input@.len() == 0
                        &&& new.same_search(&old)
                        &&& new.should_exit == old.should_exit
                    }
                },
            },
            _ => r is None && unchanged(old, new),
        }
    }
}

/// The cursor `c` brought back within a list of `len` entries.
fn clamp(c: Option<usize>, len: usize) -> (r: Option<usize>)
    ensures
        r == clamp_cursor(c, len as nat),
{
    if len == 0 {
        None
    } else {
        match c {
            Some(i) => Some(
                if i < len {
                    i
                } else {
                    len - 1
                },
            ),
            None => Some(0),
        }
    }
}

/// Sets the query and the tab, filters the list anew and clamps its cursor.
fn refilter(app: &mut State, trove: &Vec<HoardCommand>, tabs: &Vec<String>, query: String, tab: usize)
    ensures
        refiltered(*old(app), *final(app), query@, tab, trove@, views(tabs@)),
        final(app).parameter_token == old(app).parameter_token,
{
    app.commands = filter_commands(trove, &query, tabs, tab);
    app.input = query;
    app.namespace_tab_state = Some(tab);
    app.command_list_state = clamp(app.command_list_state, app.commands.len());
}

/// Handles one key on the Search screen.
pub fn key_handler_list_search(
    input: Key,
    app: &mut State,
    trove: &Vec<HoardCommand>,
    tabs: &Vec<String>,
) -> (r: Option<HoardCommand>)
    requires
        old(app).wf(trove@, views(tabs@)),
        old(app).draw_state == DrawState::Search,
    ensures
        final(app).wf(trove@, views(tabs@)),
        search_step(*old(app), *final(app), input, r, trove@, views(tabs@)),
{
    let tab = match app.namespace_tab_state {
        Some(t) => t,
        None => 0,
    };
    if input == Key::Esc || input == Key::Ctrl('c') || input == Key::Ctrl('d') {
        app.should_exit = true;
        return None;
    }
    if input == Key::F(1) {
        app.draw_state = DrawState::Help;
        return None;
    }
    match input {
        Key::Up => {
            if let Some(i) = app.command_list_state {
                app.command_list_state = Some(
                    if i == 0 {
                        0
                    } else {
                        i - 1
                    },
                );
            }
            None
        },
        Key::Down => {
            if let Some(i) = app.command_list_state {
                app.command_list_state = Some(
                    if i < app.commands.len() - 1 {
                        i + 1
                    } else {
                        i
                    },
                );
            }
            None
        },
        Key::Left | Key::BackTab => {
            let t = if tab == 0 {
                0
            } else {
                tab - 1
            };
            let q = app.input.clone();
            refilter(app, trove, tabs, q, t);
            None
        },
        Key::Right | Key::Tab => {
            let t = if tab < tabs.len() - 1 {
                tab + 1
            } else {
                tab
            };
            let q = app.input.clone();
            refilter(app, trove, tabs, q, t);
            None
        },
        Key::Char(c) => {
            let mut q = app.input.clone();
            push_char(&mut q, c);
            refilter(app, trove, tabs, q, tab);
            None
        },
        Key::Backspace => {
            let q = drop_last_char(&app.input);
            refilter(app, trove, tabs, q, tab);
            None
        },
        Key::Enter => {
            match app.command_list_state {
                None => None,
                Some(i) => {
                    let c = app.commands[i].duplicate();
                    if parameter_count(&c.command, &app.parameter_token) == 0 {
                        Some(c)
                    } else {
                        app.draw_state = DrawState::ParameterInput;
                        app.selected_command = Some(c);
                        app.parameter_values = Vec::new();
                        app.provided_parameter_count = 0;
                        app.parameter_input = String::new();
                        None
                    }
                },
            }
        },
        _ => None,
    }
}

/// What one key does on the ParameterInput screen.
pub open spec fn parameter_step(old: State, new: State, key: Key, r: Option<HoardCommand>) -> bool {
    &&& new.parameter_token@ == old.parameter_token@
    &&& if key == Key::Esc {
        &&& r is None
        &&& new.draw_state == DrawState::Search
        &&& new.parameters_cleared()
        &&& new.same_search(&old)
        &&& new.should_exit == old.should_exit
    } else if is_quit(key) {
        r is None && quit(old, new)
    } else {
        match key {
            Key::Char(c) => {
                &&& r is None
                &&& new.parameter_input@ == old.parameter_input@.push(c)
                &&& new.parameter_values@ == old.parameter_values@
                &&& new.selected_command == old.selected_command
                &&& new.provided_parameter_count == old.provided_parameter_count
                &&& new.same_search(&old)
                &&& new.draw_state == old.draw_state
                &&& new.should_exit == old.should_exit
            },
            Key::Backspace => {
                &&& r is None
                &&& new.parameter_input@ == backspaced(old.parameter_input@)
                &&& new.parameter_values@ == old.parameter_values@
                &&& new.selected_command == old.selected_command
                &&& new.provided_parameter_count == old.provided_parameter_count
                &&& new.same_search(&old)
                &&& new.draw_state == old.draw_state
                &&& new.should_exit == old.should_exit
            },
            Key::Enter => {
                let c = old.selected_command.unwrap();
                let vals = views(old.parameter_values@).push(old.parameter_input@);
                if vals.len() == token_count(c.command@, old.parameter_token@) {
                    &&& r is Some
                    &&& r.unwrap().command@ == project(c.command@, old.parameter_token@, vals)
                    &&& r.unwrap().name == c.name
                    &&& r.unwrap().namespace == c.namespace
                    &&& r.unwrap().description == c.description
                    &&& new.draw_state == DrawState::Search
                    &&& new.parameters_cleared()
                    &&& new.same_search(&old)
                    &&& new.should_exit == old.should_exit
                } else {
                    &&& r is None
                    &&& views(new.parameter_values@) == vals
                    &&& new.provided_parameter_count == old.provided_parameter_count + 1
                    &&& new.parameter_input@.len() == 0
                    &&& new.selected_command == old.selected_command
                    &&& new.same_search(&old)
                    &&& new.draw_state == old.draw_state
                    &&& new.should_exit == old.should_exit
                }
            },
            _ => r is None && unchanged(old, new),
        }
    }
}

/// Forgets the pending command and its parameters and goes back to Search.
fn back_to_search(app: &mut State)
    ensures
        final(app).draw_state == DrawState::Search,
        final(app).parameters_cleared(),
        final(app).same_search(&*old(app)),
        final(app).should_exit == old(app).should_exit,
        final(app).parameter_token == old(app).parameter_token,
{
    app.draw_state = DrawState::Search;
    app.selected_command = None;
    app.parameter_values = Vec::new();
    app.provided_parameter_count = 0;
    app.parameter_input = String::new();
}

/// Handles one key on the ParameterInput screen.
pub fn key_handler_parameter_input(input: Key, app: &mut State, trove: &Vec<HoardCommand>, tabs: &Vec<String>) -> (r: Option<HoardCommand>)
    requires
        old(app).wf(trove@, views(tabs@)),
        old(app).draw_state == DrawState::ParameterInput,
    ensures
        final(app).wf(trove@, views(tabs@)),
        parameter_step(*old(app), *final(app), input, r),
{
    if input == Key::Esc {
        back_to_search(app);
        return None;
    }
    if input == Key::Ctrl('c') || input == Key::Ctrl('d') {
        app.should_exit = true;
        return None;
    }
    match input {
        Key::Char(c) => {
            push_char(&mut app.parameter_input, c);
            None
        },
        Key::Backspace => {
            app.parameter_input = drop_last_char(&app.parameter_input);
            None
        },
        Key::Enter => {
            let c = match &app.selected_command {
                Some(c) => c.duplicate(),
                None => return None,
            };
            let ghost old_values = views(app.parameter_values@);
            let value = app.parameter_input.clone();
            app.parameter_values.push(value);
            app.parameter_input = String::new();
            assert(views(app.parameter_values@) =~= old_values.push(value@));
            let total = parameter_count(&c.command, &app.parameter_token);
            if app.parameter_values.len() == total {
                let command = substitute_parameters(&c.command, &app.parameter_token, &app.parameter_values);
                back_to_search(app);
                Some(HoardCommand { name: c.name, namespace: c.namespace, command, description: c.description })
            } else {
                app.provided_parameter_count = app.provided_parameter_count + 1;
                None
            }
        },
        _ => None,
    }
}

/// What one key does on the Help screen: any key goes back to Search.
pub open spec fn help_step(old: State, new: State, key: Key, r: Option<HoardCommand>) -> bool {
    &&& r is None
    &&& new.draw_state == DrawState::Search
    &&& new.same_search(&old)
    &&& new.same_parameters(&old)
    &&& new.should_exit == old.should_exit
    &&& new.parameter_token@ == old.parameter_token@
}

/// Handles one key on the Help screen.
pub fn key_handler_help(input: Key, app: &mut State, trove: &Vec<HoardCommand>, tabs: &Vec<String>) -> (r: Option<HoardCommand>)
    requires
        old(app).wf(trove@, views(tabs@)),
        old(app).draw_state == DrawState::Help,
    ensures
        final(app).wf(trove@, views(tabs@)),
        help_step(*old(app), *final(app), input, r),
{
    app.draw_state = DrawState::Search;
    None
}

} // verus!
