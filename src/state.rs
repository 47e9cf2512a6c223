//! The session state shared by the screens, its invariant, and the keys the
//! screens react to.
use vstd::prelude::*;
use crate::command::{filter_commands, filtered, HoardCommand};
use crate::text::{token_count, views};

verus! {

/// The screen that receives input and is drawn.
#[derive(Debug, PartialEq, Eq, Structural)]
pub enum DrawState {
    Search,
    ParameterInput,
    Help,
}

/// A key press, as the screens see it.
#[derive(Clone, Copy, Debug, PartialEq, Eq, Structural)]
pub enum Key {
    /// A printable character.
    Char(char),
    /// A character typed with the control modifier.
    Ctrl(char),
    /// A function key, by number.
    F(u8),
    Enter,
    Esc,
    Backspace,
    Up,
    Down,
    Left,
    Right,
    Tab,
    BackTab,
    /// Any other key.
    Other,
}

/// A cursor over a list of `len` entries: unset exactly when the list is
/// empty, and otherwise within it.
pub open spec fn cursor_ok(c: Option<usize>, len: nat) -> bool {
    match c {
        Some(i) => i < len,
        None => len == 0,
    }
}

/// The cursor `c` brought back within a list of `len` entries.
pub open spec fn clamp_cursor(c: Option<usize>, len: nat) -> Option<usize> {
    if len == 0 {
        None
    } else {
        match c {
            Some(i) => Some(
                if i < len {
                    i
                } else {
                    (len - 1) as usize
                },
            ),
            None => Some(0),
        }
    }
}

/// The cursor one entry up, stopping at the first.
pub open spec fn cursor_up(c: Option<usize>) -> Option<usize> {
    match c {
        Some(i) => Some(
            if i == 0 {
                0
            } else {
                (i - 1) as usize
            },
        ),
        None => None,
    }
}

/// The cursor one entry down in a list of `len` entries, stopping at the last.
pub open spec fn cursor_down(c: Option<usize>, len: nat) -> Option<usize> {
    match c {
        Some(i) => Some(
            if i + 1 < len {
                (i + 1) as usize
            } else {
                i
            },
        ),
        None => None,
    }
}

/// The state of one run of the picker.
pub struct State {
    /// The query typed on the Search screen.
    pub input: String,
    /// The commands that the Search screen lists.
    pub commands: Vec<HoardCommand>,
    /// The cursor in `commands`.
    pub command_list_state: Option<usize>,
    /// The cursor in the namespace tabs.
    pub namespace_tab_state: Option<usize>,
    /// Set when the user asked to leave without a command.
    pub should_exit: bool,
    pub draw_state: DrawState,
    /// The marker that stands for a parameter in a command template.
    pub parameter_token: String,
    /// The value typed so far for the next parameter.
    pub parameter_input: String,
    /// The values given so far, one per parameter token, in order.
    pub parameter_values: Vec<String>,
    /// The command chosen on the Search screen whose parameters are asked for.
    pub selected_command: Option<HoardCommand>,
    /// How many parameters have been given.
    pub provided_parameter_count: usize,
}

impl State {
    /// The invariant of the state, against the stored commands `trove` and the
    /// namespace tabs `tabs`.
    pub open spec fn wf(&self, trove: Seq<HoardCommand>, tabs: Seq<Seq<char>>) -> bool {
        &&& self.namespace_tab_state is Some
        &&& self.namespace_tab_state.unwrap() < tabs.len()
        &&& self.commands@ == filtered(
            trove,
            self.input@,
            tabs,
            self.namespace_tab_state.unwrap() as int,
        )
        &&& cursor_ok(self.command_list_state, self.commands@.len())
        &&& (self.selected_command is Some) == (self.draw_state == DrawState::ParameterInput)
        &&& self.provided_parameter_count == self.parameter_values@.len()
        &&& self.draw_state == DrawState::ParameterInput ==> self.parameter_values@.len()
            < token_count(self.selected_command.unwrap().command@, self.parameter_token@)
    }

    /// No command is pending and no parameter has been given or typed.
    pub open spec fn parameters_cleared(&self) -> bool {
        &&& self.selected_command is None
        &&& self.parameter_values@.len() == 0
        &&& self.provided_parameter_count == 0
        &&& self.parameter_input@.len() == 0
    }

    /// `self` and `o` agree on what the Search screen shows.
    pub open spec fn same_search(&self, o: &State) -> bool {
        &&& self.input@ == o.input@
        &&& self.commands@ == o.commands@
        &&& self.command_list_state == o.command_list_state
        &&& self.namespace_tab_state == o.namespace_tab_state
    }

    /// `self` and `o` agree on the pending command and its parameters.
    pub open spec fn same_parameters(&self, o: &State) -> bool {
        &&& self.parameter_input@ == o.parameter_input@
        &&& self.parameter_values@ == o.parameter_values@
        &&& self.selected_command == o.selected_command
        &&& self.provided_parameter_count == o.provided_parameter_count
    }

    /// The state at the start of a run: the Search screen with an empty
    /// query, every command listed, the first command and the first tab
    /// selected.
    pub fn new(trove: &Vec<HoardCommand>, tabs: &Vec<String>, parameter_token: String) -> (r: State)
        requires
            tabs@.len() > 0,
        ensures
            r.wf(trove@, views(tabs@)),
            r.draw_state == DrawState::Search,
            r.input@.len() == 0,
            r.namespace_tab_state == Some(0usize),
            r.command_list_state == clamp_cursor(Some(0usize), r.commands@.len()),
            !r.should_exit,
            r.parameters_cleared(),
            r.parameter_token@ == parameter_token@,
    {
        let input = String::new();
        let commands = filter_commands(trove, &input, tabs, 0);
        let command_list_state = if commands.len() == 0 {
            None
        } else {
            Some(0)
        };
        State {
            input,
            commands,
            command_list_state,
            namespace_tab_state: Some(0),
            should_exit: false,
            draw_state: DrawState::Search,
            parameter_token,
            parameter_input: String::new(),
            parameter_values: Vec::new(),
            selected_command: None,
            provided_parameter_count: 0,
        }
    }
}

} // verus!
